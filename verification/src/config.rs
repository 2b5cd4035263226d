//! Configuration snapshot: an immutable description of the deployable
//! applications (name, secret, playbook set, defaults) and server-wide
//! defaults. Loaded once at startup and shared read-only by every
//! connection handler.

use vstd::prelude::*;

verus! {

/// One configured deployable unit.
pub struct Application {
    /// Shared credential a request must present exactly.
    pub secret: String,
    /// Playbook name to filesystem path, keys unique.
    pub playbooks: Vec<(String, String)>,
    /// Playbook used when the request names none; must exist in `playbooks`.
    pub default_playbook: Option<String>,
    /// Host used when the request names none.
    pub default_host: String,
}

/// Mathematical model of an [`Application`].
pub struct AppModel {
    pub secret: Seq<char>,
    pub playbooks: Map<Seq<char>, Seq<char>>,
    pub default_playbook: Option<Seq<char>>,
    pub default_host: Seq<char>,
}

/// Server-wide configuration.
pub struct Config {
    /// Port the listener binds.
    pub port: u16,
    /// Application used when the request names no target.
    pub default_target: Option<String>,
    /// Target name to application, keys unique.
    pub applications: Vec<(String, Application)>,
}

/// Mathematical model of a [`Config`].
pub struct ConfigModel {
    pub port: u16,
    pub default_target: Option<Seq<char>>,
    pub applications: Map<Seq<char>, AppModel>,
}

/// No two entries of the association list share a key.
pub open spec fn keys_unique<T>(s: Seq<(String, T)>) -> bool {
    forall|i: int, j: int| 0 <= i < j < s.len() ==> s[i].0@ != s[j].0@
}

/// The finite map an association list denotes (later entries win; with
/// [`keys_unique`] the direction is immaterial).
pub open spec fn pairs_map<T: View>(s: Seq<(String, T)>) -> Map<Seq<char>, T::V>
    decreases s.len(),
{
    if s.len() == 0 {
        Map::empty()
    } else {
        pairs_map(s.drop_last()).insert(s.last().0@, s.last().1@)
    }
}

/// With unique keys, the denoted map holds exactly the listed keys, and each
/// entry of the list gives its key's value.
pub proof fn lemma_pairs_map<T: View>(s: Seq<(String, T)>, k: Seq<char>)
    requires
        keys_unique(s),
    ensures
        pairs_map(s).contains_key(k) <==> exists|i: int| 0 <= i < s.len() && s[i].0@ == k,
        forall|i: int|
            0 <= i < s.len() && s[i].0@ == k ==> pairs_map(s).contains_key(k) && pairs_map(s)[k]
                == s[i].1@,
    decreases s.len(),
{
    if s.len() > 0 {
        assert(keys_unique(s.drop_last()));
        lemma_pairs_map(s.drop_last(), k);
        if s.last().0@ == k {
            assert(s[s.len() - 1].0@ == k);
        } else {
            assert(forall|i: int|
                0 <= i < s.len() && s[i].0@ == k ==> 0 <= i < s.drop_last().len()
                    && s.drop_last()[i].0@ == k);
        }
    }
}

/// Find the entry of an association list whose key equals `key`.
pub fn lookup<'a, T: View>(pairs: &'a Vec<(String, T)>, key: &String) -> (r: Option<&'a T>)
    requires
        keys_unique(pairs@),
    ensures
        match r {
            Some(v) => pairs_map(pairs@).contains_key(key@) && v@ == pairs_map(pairs@)[key@]
                && exists|i: int| 0 <= i < pairs@.len() && *v == pairs@[i].1,
            None => !pairs_map(pairs@).contains_key(key@),
        },
{
    proof {
        lemma_pairs_map(pairs@, key@);
    }
    let n = pairs.len();
    for i in 0..n
        invariant
            n == pairs@.len(),
            keys_unique(pairs@),
            forall|j: int| 0 <= j < i ==> pairs@[j].0@ != key@,
            pairs_map(pairs@).contains_key(key@) <==> exists|j: int|
                0 <= j < pairs@.len() && pairs@[j].0@ == key@,
            forall|j: int|
                0 <= j < pairs@.len() && pairs@[j].0@ == key@ ==> pairs_map(pairs@).contains_key(
                    key@,
                ) && pairs_map(pairs@)[key@] == pairs@[j].1@,
    {
        if pairs[i].0 == *key {
            let r = Some(&pairs[i].1);
            proof {
                assert(exists|j: int| 0 <= j < pairs@.len() && pairs@[i as int].1 == pairs@[j].1);
            }
            return r;
        }
    }
    None
}

/// Whether every key of the association list occurs once.
fn check_keys_unique<T: View>(pairs: &Vec<(String, T)>) -> (r: bool)
    ensures
        r == keys_unique(pairs@),
{
    let n = pairs.len();
    for i in 0..n
        invariant
            n == pairs@.len(),
            forall|a: int, b: int| 0 <= a < b < pairs@.len() && a < i ==> pairs@[a].0@ != pairs@[b].0@,
    {
        let mut j = i + 1;
        while j < n
            invariant
                n == pairs@.len(),
                i < j <= n,
                forall|b: int| i < b < j ==> pairs@[i as int].0@ != pairs@[b].0@,
            decreases n - j,
        {
            if pairs[i].0 == pairs[j].0 {
                return false;
            }
            j += 1;
        }
    }
    true
}

impl View for Application {
    type V = AppModel;

    open spec fn view(&self) -> AppModel {
        AppModel {
            secret: self.secret@,
            playbooks: pairs_map(self.playbooks@),
            default_playbook: match self.default_playbook {
                Some(p) => Some(p@),
                None => None,
            },
            default_host: self.default_host@,
        }
    }
}

impl View for Config {
    type V = ConfigModel;

    open spec fn view(&self) -> ConfigModel {
        ConfigModel {
            port: self.port,
            default_target: match self.default_target {
                Some(t) => Some(t@),
                None => None,
            },
            applications: pairs_map(self.applications@),
        }
    }
}

impl Application {
    /// Structural invariant: playbook names unique, and the default playbook,
    /// if named, exists among them.
    pub open spec fn wf(&self) -> bool {
        &&& keys_unique(self.playbooks@)
        &&& match self.default_playbook {
            Some(p) => self@.playbooks.contains_key(p@),
            None => true,
        }
    }

    /// Whether this application satisfies its invariant: unique playbook
    /// names, and a default playbook that, if named, is one of them.
    pub fn validate(&self) -> (r: bool)
        ensures
            r == self.wf(),
    {
        if !check_keys_unique(&self.playbooks) {
            return false;
        }
        match &self.default_playbook {
            Some(p) => lookup(&self.playbooks, p).is_some(),
            None => true,
        }
    }
}

impl Config {
    /// Structural invariant: target names unique and every application
    /// well-formed.
    pub open spec fn wf(&self) -> bool {
        &&& keys_unique(self.applications@)
        &&& forall|i: int| 0 <= i < self.applications@.len() ==> self.applications@[i].1.wf()
    }

    /// Load-time validation: rejects duplicate target or playbook names and a
    /// default playbook that does not exist in its own playbook mapping.
    pub fn validate(&self) -> (r: bool)
        ensures
            r == self.wf(),
    {
        if !check_keys_unique(&self.applications) {
            return false;
        }
        let n = self.applications.len();
        for i in 0..n
            invariant
                n == self.applications@.len(),
                keys_unique(self.applications@),
                forall|j: int| 0 <= j < i ==> self.applications@[j].1.wf(),
        {
            if !self.applications[i].1.validate() {
                return false;
            }
        }
        true
    }

    /// Look up the application configured for `target`.
    pub fn app<'a>(&'a self, target: &String) -> (r: Option<&'a Application>)
        requires
            self.wf(),
        ensures
            match r {
                Some(app) => self@.applications.contains_key(target@) && app@
                    == self@.applications[target@] && app.wf(),
                None => !self@.applications.contains_key(target@),
            },
    {
        let r = lookup(&self.applications, target);
        proof {
            if r is Some {
                let i = choose|i: int|
                    0 <= i < self.applications@.len() && *r.unwrap() == self.applications@[i].1;
                assert(self.applications@[i].1.wf());
            }
        }
        r
    }
}

} // verus!
