//! The JSON body that switches a script's exposure on its subdomain on.

use crate::text::quoted;
use vstd::prelude::*;

verus! {

/// A character that JSON text carries between quotes as it is: no quote, no
/// backslash and no control character.
pub open spec fn json_plain_char(c: char) -> bool {
    c != '"' && c != '\\' && c as u32 >= 0x20
}

/// Text made of characters that need no escape.
pub open spec fn json_plain(text: Seq<char>) -> bool {
    forall|i: int| 0 <= i < text.len() ==> json_plain_char(#[trigger] text[i])
}

/// A truth value as JSON writes it.
pub open spec fn json_flag(flag: bool) -> Seq<char> {
    if flag {
        "true"@
    } else {
        "false"@
    }
}

/// The compact JSON text of an object with one member, a truth value.
pub open spec fn json_flag_object(key: Seq<char>, flag: bool) -> Seq<char> {
    "{"@ + quoted(key) + ":"@ + json_flag(flag) + "}"@
}

/// Has `serde_json` write an object with one member, a truth value.
///
/// The body builds a `serde_json::Value::Object` from a `serde_json::Map` with the
/// one entry and calls `to_string` on it, which is the crate's compact form: an
/// opening brace, the key between quotes, a colon, `true` or `false`, a closing
/// brace, with no white space. The claim is made only for keys that the crate
/// writes without an escape. Verus takes it on trust.
#[verifier::external_body]
fn flag_object_text(key: &str, flag: bool) -> (text: String)
    requires
        json_plain(key@),
    ensures
        text@ == json_flag_object(key@, flag),
{
    let mut members = serde_json::Map::new();
    members.insert(key.to_string(), serde_json::Value::Bool(flag));
    serde_json::Value::Object(members).to_string()
}

/// The text `{"enabled":true}`.
pub open spec fn subdomain_request() -> Seq<char> {
    "{\"enabled\":true}"@
}

/// The body of the call that enables a script on its subdomain.
pub fn build_subdomain_request() -> (body: String)
    ensures
        body@ == subdomain_request(),
{
    proof {
        reveal_strlit("enabled");
        reveal_strlit("{");
        reveal_strlit("\"");
        reveal_strlit(":");
        reveal_strlit("true");
        reveal_strlit("}");
        reveal_strlit("{\"enabled\":true}");
        assert(json_plain("enabled"@));
        assert(json_flag_object("enabled"@, true) =~= subdomain_request());
    }
    flag_object_text("enabled", true)
}

} // verus!
