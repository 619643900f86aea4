//! Choice of the key field of an object stored in a registry, as the
//! engine's derive of `SlotMappable` makes it.

use vstd::prelude::*;

verus! {

/// Kind of the item the derive is applied to.
#[derive(Debug, Clone, Copy, PartialEq, Eq, Structural)]
pub enum ItemShape {
    /// A struct with named fields.
    NamedStruct,
    /// A tuple struct or a unit struct.
    UnnamedStruct,
    /// An enum or a union.
    NotStruct,
}

/// Path of an attribute on a field.
#[derive(Debug, Clone, Copy, PartialEq, Eq, Structural)]
pub enum AttributePath {
    /// The identifier `key`.
    Key,
    /// Another single identifier.
    OtherIdent,
    /// A path of more than one segment.
    NotIdent,
}

/// Why the derive cannot choose a key field.
#[derive(Debug, Clone, Copy, PartialEq, Eq, Structural)]
pub enum KeyFieldError {
    /// The derive was applied to something other than a struct.
    NotAStruct,
    /// The struct has no named fields.
    NoNamedFields,
    /// An attribute on a field has a path that is not a single identifier.
    AttributeNotIdent,
    /// More than one attribute `key` was found.
    MultipleKeys,
    /// No field has the attribute `key`.
    NoKey,
}

impl KeyFieldError {
    pub open spec fn message_spec(&self) -> Seq<char> {
        match self {
            KeyFieldError::NotAStruct => "macro applicable only for struct"@,
            KeyFieldError::NoNamedFields => "struct must have a field annotated with `key` attribute"@,
            KeyFieldError::AttributeNotIdent => "called `Option::unwrap()` on a `None` value"@,
            KeyFieldError::MultipleKeys => "there must be unique `key` attribute"@,
            KeyFieldError::NoKey => "struct must have a field annotated with `key` attribute"@,
        }
    }

    /// The message the derive reports for this error.
    pub fn message(&self) -> (text: &'static str)
        ensures
            text@ == self.message_spec(),
    {
        proof {
            reveal_strlit("macro applicable only for struct");
            reveal_strlit("struct must have a field annotated with `key` attribute");
            reveal_strlit("called `Option::unwrap()` on a `None` value");
            reveal_strlit("there must be unique `key` attribute");
        }
        match self {
            KeyFieldError::NotAStruct => "macro applicable only for struct",
            KeyFieldError::NoNamedFields => "struct must have a field annotated with `key` attribute",
            KeyFieldError::AttributeNotIdent => "called `Option::unwrap()` on a `None` value",
            KeyFieldError::MultipleKeys => "there must be unique `key` attribute",
            KeyFieldError::NoKey => "struct must have a field annotated with `key` attribute",
        }
    }
}

/// Number of `key` attributes among `attributes`.
pub open spec fn key_count(attributes: Seq<AttributePath>) -> nat
    decreases attributes.len(),
{
    if attributes.len() == 0 {
        0
    } else {
        key_count(attributes.drop_last()) + if attributes.last() == AttributePath::Key {
            1nat
        } else {
            0nat
        }
    }
}

/// Number of `key` attributes on the first `n` fields.
pub open spec fn total_key_count(fields: Seq<Vec<AttributePath>>, n: int) -> nat
    decreases n,
{
    if n <= 0 {
        0
    } else {
        total_key_count(fields, n - 1) + key_count(fields[n - 1]@)
    }
}

/// Whether some attribute on some field has a path that is not a single
/// identifier.
pub open spec fn has_non_ident(fields: Seq<Vec<AttributePath>>) -> bool {
    exists|i: int, j: int|
        0 <= i < fields.len() && 0 <= j < fields[i]@.len() && #[trigger] fields[i]@[j]
            == AttributePath::NotIdent
}

/// Chooses the key field of a struct whose fields carry the attributes
/// `fields[i]`, in order: the one field with an attribute `key`.
pub fn key_field(shape: ItemShape, fields: &Vec<Vec<AttributePath>>) -> (chosen: Result<
    usize,
    KeyFieldError,
>)
    ensures
        shape == ItemShape::NotStruct ==> chosen == Err::<usize, KeyFieldError>(
            KeyFieldError::NotAStruct,
        ),
        shape == ItemShape::UnnamedStruct ==> chosen == Err::<usize, KeyFieldError>(
            KeyFieldError::NoNamedFields,
        ),
        shape == ItemShape::NamedStruct ==> {
            if has_non_ident(fields@) {
                chosen == Err::<usize, KeyFieldError>(KeyFieldError::AttributeNotIdent)
            } else if total_key_count(fields@, fields.len() as int) > 1 {
                chosen == Err::<usize, KeyFieldError>(KeyFieldError::MultipleKeys)
            } else if total_key_count(fields@, fields.len() as int) == 0 {
                chosen == Err::<usize, KeyFieldError>(KeyFieldError::NoKey)
            } else {
                &&& chosen is Ok
                &&& 0 <= chosen->Ok_0 < fields.len()
                &&& key_count(fields@[chosen->Ok_0 as int]@) == 1
            }
        },
{
    match shape {
        ItemShape::NotStruct => return Err(KeyFieldError::NotAStruct),
        ItemShape::UnnamedStruct => return Err(KeyFieldError::NoNamedFields),
        ItemShape::NamedStruct => {},
    }
    let mut count: usize = 0;
    let mut found: usize = 0;
    let mut i: usize = 0;
    while i < fields.len()
        invariant
            0 <= i <= fields.len(),
            shape == ItemShape::NamedStruct,
            forall|a: int, b: int|
                0 <= a < i && 0 <= b < fields@[a]@.len() ==> #[trigger] fields@[a]@[b]
                    != AttributePath::NotIdent,
            count as nat == total_key_count(fields@, i as int) || (count == 2
                && total_key_count(fields@, i as int) >= 2),
            count <= 2,
            count == 1 ==> 0 <= found < i && key_count(fields@[found as int]@) == 1,
        decreases fields.len() - i,
    {
        let attributes = &fields[i];
        let mut here: usize = 0;
        let mut j: usize = 0;
        while j < attributes.len()
            invariant
                0 <= j <= attributes.len(),
                0 <= i < fields.len(),
                shape == ItemShape::NamedStruct,
                attributes@ == fields@[i as int]@,
                forall|b: int| 0 <= b < j ==> #[trigger] attributes@[b] != AttributePath::NotIdent,
                here as nat == key_count(attributes@.take(j as int)) || (here == 2 && key_count(
                    attributes@.take(j as int),
                ) >= 2),
                here <= 2,
            decreases attributes.len() - j,
        {
            match attributes[j] {
                AttributePath::NotIdent => {
                    proof {
                        assert(fields@[i as int]@[j as int] == AttributePath::NotIdent);
                        assert(has_non_ident(fields@));
                    }
                    return Err(KeyFieldError::AttributeNotIdent);
                },
                AttributePath::Key => {
                    if here < 2 {
                        here = here + 1;
                    }
                },
                AttributePath::OtherIdent => {},
            }
            assert(attributes@.take(j as int + 1).drop_last() =~= attributes@.take(j as int));
            j = j + 1;
        }
        assert(attributes@.take(attributes.len() as int) =~= attributes@);
        if here > 0 {
            if count == 0 && here == 1 {
                found = i;
            }
            count = if count + here > 2 {
                2
            } else {
                count + here
            };
        }
        i = i + 1;
    }
    proof {
        assert(!has_non_ident(fields@));
    }
    if count > 1 {
        Err(KeyFieldError::MultipleKeys)
    } else if count == 0 {
        Err(KeyFieldError::NoKey)
    } else {
        Ok(found)
    }
}

} // verus!
