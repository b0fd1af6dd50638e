//! Names of slots and locks: byte strings that the host can take as
//! NUL-terminated text, and the identifiers minted for lock-free slots.

use vstd::prelude::*;

verus! {

/// A name the host accepts: it holds no NUL byte.
pub open spec fn valid_name(name: Seq<u8>) -> bool {
    forall|i: int| 0 <= i < name.len() ==> name[i] != 0u8
}

/// The views of the names, in order.
pub open spec fn name_views(names: Seq<Vec<u8>>) -> Seq<Seq<u8>> {
    Seq::new(names.len(), |i: int| names[i]@)
}

/// In a sequence without duplicates, a value found at `i` has index `i`.
pub proof fn lemma_index_of_unique(names: Seq<Seq<u8>>, name: Seq<u8>, i: int)
    requires
        names.no_duplicates(),
        0 <= i < names.len(),
        names[i] == name,
    ensures
        names.contains(name),
        names.index_of(name) == i,
{
    let j = names.index_of(name);
    assert(0 <= j < names.len() && names[j] == name);
}

/// Appending a name that does not occur keeps a sequence free of duplicates.
pub proof fn lemma_push_fresh(names: Seq<Seq<u8>>, name: Seq<u8>)
    requires
        names.no_duplicates(),
        !names.contains(name),
    ensures
        names.push(name).no_duplicates(),
        names.push(name).contains(name),
        names.push(name).index_of(name) == names.len(),
{
    let longer = names.push(name);
    assert forall|i: int, j: int|
        0 <= i < longer.len() && 0 <= j < longer.len() && i != j implies longer[i] != longer[j] by {
        if i < names.len() && j < names.len() {
        } else if i < names.len() {
            assert(names[i] == longer[i]);
        } else {
            assert(names[j] == longer[j]);
        }
    }
    assert(longer[names.len() as int] == name);
    lemma_index_of_unique(longer, name, names.len() as int);
}

/// A lower-case hexadecimal digit in ASCII.
pub open spec fn is_lower_hex(b: u8) -> bool {
    (0x30u8 <= b && b <= 0x39u8) || (0x61u8 <= b && b <= 0x66u8)
}

/// The hyphenated text form of a random (version 4) UUID: 36 bytes, hyphens
/// after the 8th, 12th, 16th and 20th digit, lower-case hexadecimal digits
/// elsewhere, the version digit `4` and a variant digit among `8 9 a b`.
pub open spec fn is_hyphenated_v4(id: Seq<u8>) -> bool {
    &&& id.len() == 36
    &&& forall|i: int|
        0 <= i < 36 ==> if i == 8 || i == 13 || i == 18 || i == 23 {
            id[i] == 0x2du8
        } else {
            is_lower_hex(#[trigger] id[i])
        }
    &&& id[14] == 0x34u8
    &&& (id[19] == 0x38u8 || id[19] == 0x39u8 || id[19] == 0x61u8 || id[19] == 0x62u8)
}

/// An identifier in that form is a name the host accepts.
pub proof fn lemma_identifier_is_valid_name(id: Seq<u8>)
    requires
        is_hyphenated_v4(id),
    ensures
        valid_name(id),
{
    assert forall|i: int| 0 <= i < id.len() implies id[i] != 0u8 by {
        if i == 8 || i == 13 || i == 18 || i == 23 {
        } else {
            assert(is_lower_hex(id[i]));
        }
    }
}

/// Whether `name` holds no NUL byte.
pub fn is_valid_name(name: &Vec<u8>) -> (ok: bool)
    ensures
        ok == valid_name(name@),
{
    let mut i: usize = 0;
    while i < name.len()
        invariant
            i <= name.len(),
            forall|k: int| 0 <= k < i ==> name@[k] != 0u8,
        decreases name.len() - i,
    {
        if name[i] == 0u8 {
            return false;
        }
        i += 1;
    }
    true
}

/// Whether two names hold the same bytes.
pub fn same_name(a: &Vec<u8>, b: &Vec<u8>) -> (same: bool)
    ensures
        same == (a@ == b@),
{
    if a.len() != b.len() {
        return false;
    }
    let mut i: usize = 0;
    while i < a.len()
        invariant
            a.len() == b.len(),
            i <= a.len(),
            forall|k: int| 0 <= k < i ==> a@[k] == b@[k],
        decreases a.len() - i,
    {
        if a[i] != b[i] {
            return false;
        }
        i += 1;
    }
    assert(a@ =~= b@);
    true
}

/// The index at which `name` stands in `names`, if it occurs there.
pub fn find_name(names: &Vec<Vec<u8>>, name: &Vec<u8>) -> (found: Option<usize>)
    ensures
        match found {
            Some(i) => i < names.len() && name_views(names@)[i as int] == name@,
            None => !name_views(names@).contains(name@),
        },
{
    let mut i: usize = 0;
    while i < names.len()
        invariant
            i <= names.len(),
            forall|k: int| 0 <= k < i ==> name_views(names@)[k] != name@,
        decreases names.len() - i,
    {
        if same_name(&names[i], name) {
            return Some(i);
        }
        i += 1;
    }
    None
}

/// A copy of `bytes`.
pub fn copy_bytes(bytes: &Vec<u8>) -> (copy: Vec<u8>)
    ensures
        copy@ == bytes@,
{
    let mut copy: Vec<u8> = Vec::new();
    let mut i: usize = 0;
    while i < bytes.len()
        invariant
            i <= bytes.len(),
            copy@ == bytes@.subrange(0, i as int),
        decreases bytes.len() - i,
    {
        copy.push(bytes[i]);
        assert(copy@ =~= bytes@.subrange(0, i + 1));
        i += 1;
    }
    assert(copy@ =~= bytes@);
    copy
}

/// Calls `uuid::Uuid::new_v4` and takes the bytes of its `to_string` text.
/// The value is random. What is claimed holds of every outcome: the text is
/// the hyphenated lower-case form of a version 4 UUID.
#[verifier::external_body]
fn random_identifier() -> (id: Vec<u8>)
    ensures
        is_hyphenated_v4(id@),
{
    uuid::Uuid::new_v4().to_string().into_bytes()
}

/// Mints a fresh identifier for a lock-free slot. Which one comes back is left
/// to chance; every one is a name the host accepts.
pub fn generate_identifier() -> (id: Vec<u8>)
    ensures
        is_hyphenated_v4(id@),
        valid_name(id@),
{
    let id = random_identifier();
    proof {
        lemma_identifier_is_valid_name(id@);
    }
    id
}

} // verus!
