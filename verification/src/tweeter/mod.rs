//! Users and tweets: their data, the rules on them, and name checks.

pub mod types;
pub mod rules;

use vstd::prelude::*;
use crate::strutil::str_len;

verus! {

/// The verdict on a user name: empty, longer than 12 bytes, shorter than 3
/// bytes, or fine.
pub open spec fn name_verdict(name: Seq<char>) -> Seq<char> {
    if name.len() == 0 {
        "Name is cannot be empty"@
    } else if str_len(name) > 12 {
        "Name is cannot be bigger than the 12 charracter"@
    } else if str_len(name) < 3 {
        "Name is cannot be lesser than the 3 charracter"@
    } else {
        "name is ok"@
    }
}

/// Checks a user name; `name is ok` when it is 3 to 12 bytes long.
pub fn nwt(name: &str) -> (r: &str)
    ensures
        r@ == name_verdict(name@),
{
    if name.is_empty() {
        return "Name is cannot be empty";
    }
    if name.len() > 12 {
        return "Name is cannot be bigger than the 12 charracter";
    }
    if name.len() < 3 {
        return "Name is cannot be lesser than the 3 charracter";
    } else {
        return "name is ok";
    }
}

/// A name passes the check exactly when it is 3 to 12 bytes long; an
/// empty name is told so first, then a name that is too long, then one that
/// is too short.
pub proof fn law_name_ok_exactly_in_range(name: Seq<char>)
    ensures
        (name_verdict(name) == "name is ok"@) <==> (3 <= str_len(name) <= 12),
        name.len() == 0 ==> name_verdict(name) == "Name is cannot be empty"@,
        name.len() != 0 && str_len(name) > 12 ==> name_verdict(name)
            == "Name is cannot be bigger than the 12 charracter"@,
        name.len() != 0 && str_len(name) < 3 ==> name_verdict(name)
            == "Name is cannot be lesser than the 3 charracter"@,
{
    reveal_strlit("name is ok");
    reveal_strlit("Name is cannot be empty");
    reveal_strlit("Name is cannot be bigger than the 12 charracter");
    reveal_strlit("Name is cannot be lesser than the 3 charracter");
    assert("name is ok"@.len() == 10);
    assert("Name is cannot be empty"@.len() == 23);
    assert("Name is cannot be bigger than the 12 charracter"@.len() == 47);
    assert("Name is cannot be lesser than the 3 charracter"@.len() == 46);
    if name.len() == 0 {
        assert(str_len(name) == 0);
    }
}

} // verus!
