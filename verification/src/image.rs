//! Parsing of image references: a single `name:tag` input string in which
//! exactly one colon separates the repository name from the tag.

use vstd::prelude::*;
use crate::errors::RunError;

verus! {

/// A parsed image reference: the repository name and the tag.
#[derive(Debug, Clone, PartialEq)]
pub struct ImageReference {
    pub name: String,
    pub tag: String,
}

/// `i` is the position of the one and only colon in `s`.
pub open spec fn splits_at(s: Seq<char>, i: int) -> bool {
    &&& 0 <= i < s.len()
    &&& s[i] == ':'
    &&& forall|k: int| 0 <= k < s.len() && k != i ==> s[k] != ':'
}

/// `s` holds exactly one colon.
pub open spec fn well_formed_reference(s: Seq<char>) -> bool {
    exists|i: int| splits_at(s, i)
}

/// Parses `name:tag`. A reference without exactly one colon is a usage
/// error, reported before anything else happens in the invocation.
pub fn parse_image_reference(s: &str) -> (r: Result<ImageReference, RunError>)
    ensures
        r is Ok <==> well_formed_reference(s@),
        r matches Ok(img) ==> exists|i: int|
            #[trigger] splits_at(s@, i) && img.name@ == s@.subrange(0, i) && img.tag@
                == s@.subrange(i + 1, s@.len() as int),
        r matches Err(e) ==> e == RunError::Usage,
{
    let n = s.unicode_len();
    let mut count: usize = 0;
    let mut pos: usize = 0;
    let mut second: usize = 0;
    let mut i: usize = 0;
    while i < n
        invariant
            n == s@.len(),
            0 <= i <= n,
            count <= i,
            count == 0 ==> forall|k: int| 0 <= k < i ==> s@[k] != ':',
            count == 1 ==> 0 <= pos < i && s@[pos as int] == ':' && forall|k: int|
                0 <= k < i && k != pos ==> s@[k] != ':',
            count >= 2 ==> 0 <= pos < second < i && s@[pos as int] == ':' && s@[second as int]
                == ':',
        decreases n - i,
    {
        if s.get_char(i) == ':' {
            if count == 0 {
                pos = i;
            } else if count == 1 {
                second = i;
            }
            count = count + 1;
        }
        i = i + 1;
    }
    if count == 1 {
        proof {
            assert(splits_at(s@, pos as int));
        }
        let name = s.substring_char(0, pos).to_owned();
        let tag = s.substring_char(pos + 1, n).to_owned();
        Ok(ImageReference { name, tag })
    } else {
        proof {
            if count >= 2 {
                assert forall|j: int| !splits_at(s@, j) by {
                    if splits_at(s@, j) {
                        if j != pos {
                            assert(s@[pos as int] != ':');
                        } else {
                            assert(s@[second as int] != ':');
                        }
                    }
                }
            }
        }
        Err(RunError::Usage)
    }
}

} // verus!
