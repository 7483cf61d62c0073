//! The claims codec: claims as the members of a JSON object, and back.
//!
//! On the wire the subject is the member `name`, the privilege flag is
//! `is_admin`, the expiry is `exp` and the not-before time is `nbf`.

use vstd::prelude::*;
use crate::claims::{Claims, ClaimsView};
use crate::object::{
    empty_object, get_flag, get_number, get_text, members, no_members, put_flag, put_number,
    put_text, JsonObject, Member,
};

verus! {

/// The members of the JSON object that carries the claims `c`.
pub open spec fn claims_members(c: ClaimsView) -> Map<Seq<char>, Member> {
    no_members().insert("name"@, Member::Text(c.name)).insert(
        "is_admin"@,
        Member::Flag(c.is_admin),
    ).insert("exp"@, Member::Number(c.exp)).insert("nbf"@, Member::Number(c.nbf))
}

/// Whether an object with the members `m` carries claims: `name` is a string,
/// `is_admin` a boolean, `exp` and `nbf` whole numbers in the range of `u64`.
/// Members under other keys do not matter.
pub open spec fn carries_claims(m: Map<Seq<char>, Member>) -> bool {
    &&& m.contains_key("name"@) && m["name"@] is Text
    &&& m.contains_key("is_admin"@) && m["is_admin"@] is Flag
    &&& m.contains_key("exp"@) && m["exp"@] is Number
    &&& m.contains_key("nbf"@) && m["nbf"@] is Number
}

/// The claims that an object with the members `m` carries, if it carries any.
pub open spec fn members_claims(m: Map<Seq<char>, Member>) -> Option<ClaimsView> {
    if carries_claims(m) {
        Some(
            ClaimsView {
                name: m["name"@]->Text_0,
                is_admin: m["is_admin"@]->Flag_0,
                exp: m["exp"@]->Number_0,
                nbf: m["nbf"@]->Number_0,
            },
        )
    } else {
        None
    }
}

/// The four keys of the wire format are pairwise distinct.
pub proof fn lemma_keys_distinct()
    ensures
        "name"@ != "is_admin"@,
        "name"@ != "exp"@,
        "name"@ != "nbf"@,
        "is_admin"@ != "exp"@,
        "is_admin"@ != "nbf"@,
        "exp"@ != "nbf"@,
{
    reveal_strlit("name");
    reveal_strlit("is_admin");
    reveal_strlit("exp");
    reveal_strlit("nbf");
    assert("name"@.len() == 4);
    assert("is_admin"@.len() == 8);
    assert("exp"@.len() == 3);
    assert("nbf"@.len() == 3);
    assert("exp"@[0] != "nbf"@[0]);
}

/// Decoding what was encoded gives the claims back, whatever they are.
pub proof fn lemma_codec_round_trip(c: ClaimsView)
    ensures
        carries_claims(claims_members(c)),
        members_claims(claims_members(c)) == Some(c),
{
    lemma_keys_distinct();
}

impl Claims {
    /// The JSON object that carries these claims.
    pub fn to_object(&self) -> (object: JsonObject)
        ensures
            members(object) == claims_members(self@),
    {
        let mut object = empty_object();
        put_text(&mut object, "name", self.name());
        put_flag(&mut object, "is_admin", self.is_admin());
        put_number(&mut object, "exp", self.exp());
        put_number(&mut object, "nbf", self.nbf());
        object
    }

    /// The claims that a JSON object carries, or `None` where one of the four
    /// members is missing or holds a value of another kind.
    pub fn from_object(object: &JsonObject) -> (claims: Option<Claims>)
        ensures
            match claims {
                Some(c) => members_claims(members(*object)) == Some(c@),
                None => members_claims(members(*object)) is None,
            },
    {
        let name = match get_text(object, "name") {
            Some(name) => name,
            None => return None,
        };
        let is_admin = match get_flag(object, "is_admin") {
            Some(is_admin) => is_admin,
            None => return None,
        };
        let exp = match get_number(object, "exp") {
            Some(exp) => exp,
            None => return None,
        };
        let nbf = match get_number(object, "nbf") {
            Some(nbf) => nbf,
            None => return None,
        };
        Some(Claims::new(name, is_admin, exp, nbf))
    }
}

} // verus!
