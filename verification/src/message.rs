//! The decoded form of one connection's request: which application to
//! deploy, the credential presented, optional playbook and host overrides,
//! and the opaque extra-variables payload forwarded to the automation tool.

use vstd::prelude::*;

use rustc_serialize::json::Json;

use crate::jsondoc::{
    field_is_object, field_text, has_field, json_as_string, json_encode, json_find,
    json_is_object, str_field,
};

verus! {

/// One decoded deployment request.
#[derive(PartialEq, Eq, Debug)]
pub struct RemoteCommand {
    /// Application name; the configuration's default target applies when absent.
    pub target: Option<String>,
    /// Credential presented by the caller.
    pub secret: String,
    /// Playbook name; the application's default applies when absent.
    pub playbook: Option<String>,
    /// Host; the application's default applies when absent.
    pub host: Option<String>,
    /// Extra-variables payload, already serialized to the automation tool's
    /// textual form; passed through verbatim.
    pub extra_vars: String,
}

/// Mathematical model of a [`RemoteCommand`].
#[verifier::ext_equal]
pub struct CommandModel {
    pub target: Option<Seq<char>>,
    pub secret: Seq<char>,
    pub playbook: Option<Seq<char>>,
    pub host: Option<Seq<char>>,
    pub extra_vars: Seq<char>,
}

impl View for RemoteCommand {
    type V = CommandModel;

    open spec fn view(&self) -> CommandModel {
        CommandModel {
            target: match self.target {
                Some(t) => Some(t@),
                None => None,
            },
            secret: self.secret@,
            playbook: match self.playbook {
                Some(p) => Some(p@),
                None => None,
            },
            host: match self.host {
                Some(h) => Some(h@),
                None => None,
            },
            extra_vars: self.extra_vars@,
        }
    }
}

/// Why a request payload could not be decoded.
#[derive(PartialEq, Eq, Structural, Clone, Copy, Debug)]
pub enum DecodeError {
    /// The payload is not one well-formed JSON object carrying a string
    /// `secret` field, with `target`, `playbook` and `host` strings when
    /// present.
    Malformed,
    /// The extra-variables sub-payload is present but malformed; distinct
    /// from a decode failure of the outer structure.
    ExtraVars,
}

/// A field is decodable when it is absent or holds a JSON string.
pub open spec fn spec_field_ok(j: Json, key: Seq<char>) -> bool {
    !has_field(j, key) || str_field(j, key) is Some
}

/// Whether the document decodes to a command: `secret` is mandatory and a
/// string; the optional fields, when present, are strings.
pub open spec fn spec_doc_decodes(j: Json) -> bool {
    &&& str_field(j, "secret"@) is Some
    &&& spec_field_ok(j, "target"@)
    &&& spec_field_ok(j, "playbook"@)
    &&& spec_field_ok(j, "host"@)
}

/// The extra-variables sub-payload is well-formed when absent or an object.
pub open spec fn spec_extra_vars_ok(j: Json) -> bool {
    !has_field(j, "config"@) || field_is_object(j, "config"@)
}

/// The extra-variables payload forwarded to the automation tool: the
/// `config` field serialized back to compact JSON text, or an empty object
/// when the field is absent.
pub open spec fn spec_extra_vars(j: Json) -> Seq<char> {
    if has_field(j, "config"@) {
        field_text(j, "config"@)
    } else {
        "{}"@
    }
}

/// The command a decodable document denotes.
pub open spec fn spec_command(j: Json) -> CommandModel {
    CommandModel {
        target: str_field(j, "target"@),
        secret: match str_field(j, "secret"@) {
            Some(s) => s,
            None => Seq::empty(),
        },
        playbook: str_field(j, "playbook"@),
        host: str_field(j, "host"@),
        extra_vars: spec_extra_vars(j),
    }
}

/// Read an optional string field: absent is fine, a non-string value is a
/// decode failure.
fn opt_str_field(doc: &Json, key: &str) -> (r: Result<Option<String>, DecodeError>)
    ensures
        match r {
            Ok(opt) => match opt {
                Some(s) => str_field(*doc, key@) == Some(s@),
                None => !has_field(*doc, key@) && str_field(*doc, key@) is None,
            },
            Err(e) => e == DecodeError::Malformed && has_field(*doc, key@) && str_field(*doc, key@)
                is None,
        },
{
    match json_find(doc, key) {
        None => Ok(None),
        Some(v) => match json_as_string(v) {
            Some(s) => Ok(Some(s)),
            None => Err(DecodeError::Malformed),
        },
    }
}

/// Decode one parsed request document into a [`RemoteCommand`], extracting
/// the extra-variables sub-payload as opaque serialized text.
pub fn command_from_doc(doc: &Json) -> (r: Result<RemoteCommand, DecodeError>)
    ensures
        match r {
            Ok(cmd) => spec_doc_decodes(*doc) && spec_extra_vars_ok(*doc) && cmd@ == spec_command(
                *doc,
            ),
            Err(e) => match e {
                DecodeError::Malformed => !spec_doc_decodes(*doc),
                DecodeError::ExtraVars => spec_doc_decodes(*doc) && !spec_extra_vars_ok(*doc),
            },
        },
{
    let secret: String = match json_find(doc, "secret") {
        None => {
            return Err(DecodeError::Malformed);
        },
        Some(v) => match json_as_string(v) {
            Some(s) => s,
            None => {
                return Err(DecodeError::Malformed);
            },
        },
    };
    let target = opt_str_field(doc, "target")?;
    let playbook = opt_str_field(doc, "playbook")?;
    let host = opt_str_field(doc, "host")?;
    let extra_vars: String = match json_find(doc, "config") {
        None => "{}".to_owned(),
        Some(v) => {
            if json_is_object(v) {
                json_encode(v)
            } else {
                return Err(DecodeError::ExtraVars);
            }
        },
    };
    let cmd = RemoteCommand { target, secret, playbook, host, extra_vars };
    proof {
        assert(cmd@ =~= spec_command(*doc));
    }
    Ok(cmd)
}

} // verus!
