//! The raw configuration value handed over by the scripting layer, modelled
//! as a dynamic value: text, a table of named fields, nil, or anything
//! else. Field lookup follows the scripting convention that an absent field
//! reads as nil.

use vstd::prelude::*;

verus! {

/// A dynamically typed configuration value. `Other` stands for every
/// scripting-layer value the resolver has no use for (numbers, booleans,
/// functions, ...): the resolvers only ever reject it, so its content does
/// not matter.
#[derive(Debug)]
pub enum DynValue {
    Nil,
    Text(String),
    Table(Vec<(String, DynValue)>),
    Other,
}

/// The value a table field holds, or nil when no field of that name exists.
/// When a name is repeated the first entry wins.
pub open spec fn field_or_nil(fields: Seq<(String, DynValue)>, key: Seq<char>) -> DynValue
    decreases fields.len(),
{
    if fields.len() == 0 {
        DynValue::Nil
    } else if fields[0].0@ == key {
        fields[0].1
    } else {
        field_or_nil(fields.drop_first(), key)
    }
}

/// Whether two text values spell the same token.
pub fn is_token(s: &str, tok: &str) -> (r: bool)
    ensures
        r == (s@ == tok@),
{
    let a = s.to_owned();
    let b = tok.to_owned();
    a == b
}

/// Looks a field up by name; `None` means the table reads as nil there.
pub fn field<'a>(fields: &'a Vec<(String, DynValue)>, key: &str) -> (r: Option<&'a DynValue>)
    ensures
        match r {
            Some(d) => *d == field_or_nil(fields@, key@),
            None => field_or_nil(fields@, key@) == DynValue::Nil,
        },
{
    proof {
        assert(fields@.skip(0) =~= fields@);
    }
    let mut i: usize = 0;
    while i < fields.len()
        invariant
            i <= fields.len(),
            field_or_nil(fields@, key@) == field_or_nil(fields@.skip(i as int), key@),
        decreases fields.len() - i,
    {
        if is_token(fields[i].0.as_str(), key) {
            return Some(&fields[i].1);
        }
        proof {
            assert(fields@.skip(i as int).drop_first() =~= fields@.skip(i as int + 1));
        }
        i = i + 1;
    }
    None
}

} // verus!
