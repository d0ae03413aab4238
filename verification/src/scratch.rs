//! Names for the files of the scratch directory. Every request writes under
//! names built on fresh random identifiers, so that requests in flight never
//! share a file.

use vstd::prelude::*;
use vstd::string::*;
use crate::text::{chars_of, find_first, first_index, lemma_first_index, slice};

verus! {

/// A digit of lower-case hexadecimal.
pub open spec fn is_hex_digit(c: char) -> bool {
    c == '0' || c == '1' || c == '2' || c == '3' || c == '4' || c == '5' || c == '6' || c == '7'
        || c == '8' || c == '9' || c == 'a' || c == 'b' || c == 'c' || c == 'd' || c == 'e' || c
        == 'f'
}

/// The shape of an identifier: 32 hexadecimal digits in groups of 8, 4, 4, 4
/// and 12, with a hyphen between the groups.
pub open spec fn is_identifier(s: Seq<char>) -> bool {
    &&& s.len() == 36
    &&& forall|i: int|
        0 <= i < 36 ==> if i == 8 || i == 13 || i == 18 || i == 23 {
            #[trigger] s[i] == '-'
        } else {
            is_hex_digit(s[i])
        }
}

/// `uuid::Uuid::new_v4`, written out by its `Display`. Not proved: that the
/// text has the hyphenated lower-case shape. Nothing is claimed of which
/// identifier comes.
#[verifier::external_body]
pub(crate) fn random_identifier() -> (id: String)
    ensures
        is_identifier(id@),
{
    uuid::Uuid::new_v4().to_string()
}

/// The name of the file that holds an asset: its stem, a dot, its extension.
pub open spec fn artifact_name_of(stem: Seq<char>, extension: Seq<char>) -> Seq<char> {
    stem + seq!['.'] + extension
}

/// What is left of a file name before its first dot.
pub open spec fn stem_of(file_name: Seq<char>) -> Seq<char> {
    file_name.take(first_index(file_name, '.'))
}

/// An identifier holds no dot.
pub proof fn lemma_identifier_has_no_dot(id: Seq<char>)
    requires
        is_identifier(id),
    ensures
        !id.contains('.'),
        first_index(id, '.') == id.len(),
{
    lemma_first_index(id, '.', id.len() as int);
}

/// The stem of an artifact's name is the stem it was built on, where that
/// stem holds no dot.
pub proof fn lemma_stem_of_artifact_name(stem: Seq<char>, extension: Seq<char>)
    requires
        !stem.contains('.'),
    ensures
        stem_of(artifact_name_of(stem, extension)) == stem,
{
    let name = artifact_name_of(stem, extension);
    lemma_first_index(name, '.', stem.len() as int);
}

/// Names built on different identifiers differ, whatever their extensions:
/// two requests that drew different identifiers never write the same file.
pub proof fn lemma_names_differ_with_identifiers(
    id: Seq<char>,
    extension: Seq<char>,
    other_id: Seq<char>,
    other_extension: Seq<char>,
)
    requires
        is_identifier(id),
        is_identifier(other_id),
        id != other_id,
    ensures
        artifact_name_of(id, extension) != artifact_name_of(other_id, other_extension),
        id != artifact_name_of(other_id, other_extension),
{
    let name = artifact_name_of(id, extension);
    let other = artifact_name_of(other_id, other_extension);
    assert(name.take(36) =~= id);
    assert(other.take(36) =~= other_id);
}

/// Builds the name `stem.extension`.
pub fn artifact_name(stem: &str, extension: &str) -> (name: String)
    ensures
        name@ == artifact_name_of(stem@, extension@),
{
    proof {
        reveal_strlit(".");
    }
    let name = String::from_str(stem).concat(".").concat(extension);
    name
}

/// The part of `file_name` before its first dot.
pub fn stem(file_name: &str) -> (s: String)
    ensures
        s@ == stem_of(file_name@),
{
    let cs = chars_of(file_name);
    let cut = find_first(&cs, '.');
    slice(file_name, 0, cut)
}

} // verus!
