//! Deleting a command: confirming the request and naming what is removed.
use vstd::prelude::*;
use vstd::string::StrSliceExecFns;
use crate::layout::{binary_ext, file_in, source_ext, Registry};
use crate::lifecycle::{artifact_paths, ArtifactPaths};

verus! {

/// A character with the Unicode `White_Space` property.
pub open spec fn is_white_space(c: char) -> bool {
    ||| ('\u{9}' <= c && c <= '\u{d}')
    ||| c == ' '
    ||| c == '\u{85}'
    ||| c == '\u{a0}'
    ||| c == '\u{1680}'
    ||| ('\u{2000}' <= c && c <= '\u{200a}')
    ||| c == '\u{2028}'
    ||| c == '\u{2029}'
    ||| c == '\u{202f}'
    ||| c == '\u{205f}'
    ||| c == '\u{3000}'
}

/// `t` is `s` with its leading and trailing white space removed.
pub open spec fn is_trim_of(t: Seq<char>, s: Seq<char>) -> bool {
    exists|a: int, b: int|
        {
            &&& 0 <= a <= b <= s.len()
            &&& t == #[trigger] s.subrange(a, b)
            &&& forall|i: int| 0 <= i < a ==> is_white_space(s[i])
            &&& forall|i: int| b <= i < s.len() ==> is_white_space(s[i])
            &&& a < b ==> !is_white_space(s[a]) && !is_white_space(s[b - 1])
        }
}

/// Relies on str::trim: the slice without leading and trailing characters
/// that have the Unicode White_Space property.
#[verifier::external_body]
fn trim_white_space<'a>(s: &'a str) -> (r: &'a str)
    ensures
        is_trim_of(r@, s@),
{
    s.trim()
}

/// An answer to the confirmation prompt says yes: apart from white space it
/// is the single letter `y` or `Y`.
pub open spec fn confirms(answer: Seq<char>) -> bool {
    exists|k: int|
        {
            &&& 0 <= k < answer.len()
            &&& (#[trigger] answer[k] == 'y' || answer[k] == 'Y')
            &&& forall|i: int| 0 <= i < answer.len() && i != k ==> is_white_space(answer[i])
        }
}

/// Whether a line typed at the confirmation prompt confirms the deletion.
pub fn confirms_deletion(answer: &str) -> (r: bool)
    ensures
        r == confirms(answer@),
{
    let t = trim_white_space(answer);
    let yes = t.unicode_len() == 1 && (t.get_char(0) == 'y' || t.get_char(0) == 'Y');
    proof {
        let s = answer@;
        let (a, b) = choose|a: int, b: int|
            {
                &&& 0 <= a <= b <= s.len()
                &&& t@ == #[trigger] s.subrange(a, b)
                &&& forall|i: int| 0 <= i < a ==> is_white_space(s[i])
                &&& forall|i: int| b <= i < s.len() ==> is_white_space(s[i])
                &&& a < b ==> !is_white_space(s[a]) && !is_white_space(s[b - 1])
            };
        if yes {
            assert(s[a] == t@[0]);
            assert forall|i: int| 0 <= i < s.len() && i != a implies is_white_space(s[i]) by {
                if a < i && i < b {
                    assert(false);
                }
            }
            assert(confirms(s));
        } else if confirms(s) {
            let k = choose|k: int|
                {
                    &&& 0 <= k < s.len()
                    &&& (#[trigger] s[k] == 'y' || s[k] == 'Y')
                    &&& forall|i: int| 0 <= i < s.len() && i != k ==> is_white_space(s[i])
                };
            assert(a <= k);
            assert(k < b);
            assert(a == k);
            assert(b - 1 == k);
            assert(t@[0] == s[k]);
        }
    }
    yes
}

/// Whether `delete` may go ahead: forced with `-y`, or confirmed by the
/// answer read at the prompt.
pub open spec fn deletion_approved(force: bool, answer: Option<String>) -> bool {
    force || (answer matches Some(a) && confirms(a@))
}

/// Plans `delete <name>`: both artifacts of an approved deletion, each to be
/// removed on its own, a missing one skipped; nothing when not approved.
pub fn plan_delete(registry: &Registry, name: &str, force: bool, answer: Option<String>) -> (r:
    Option<ArtifactPaths>)
    ensures
        r is Some <==> deletion_approved(force, answer),
        r matches Some(p) ==> p.source@ == file_in(registry.root@, name@, source_ext())
            && p.binary@ == file_in(registry.root@, name@, binary_ext()),
{
    let approved = force || match &answer {
        Some(a) => confirms_deletion(a.as_str()),
        None => false,
    };
    if approved {
        Some(artifact_paths(registry, name))
    } else {
        None
    }
}

/// A deletion that is neither forced nor confirmed goes nowhere: in
/// particular, an answer without a `y` or `Y` in it never approves one, nor
/// does one that holds anything but white space besides its `y` or `Y`. A
/// forced deletion goes ahead whatever was answered.
pub proof fn lemma_delete_safety(force: bool, answer: Option<String>)
    ensures
        !force && !(answer matches Some(a) && confirms(a@)) ==> !deletion_approved(force, answer),
        !force && (answer matches Some(a) && forall|i: int|
            0 <= i < a@.len() ==> a@[i] != 'y' && a@[i] != 'Y') ==> !deletion_approved(
            force,
            answer,
        ),
        !force && (answer matches Some(a) && exists|i: int, j: int|
            0 <= i < j < a@.len() && !is_white_space(a@[i]) && !is_white_space(a@[j]))
            ==> !deletion_approved(force, answer),
        force ==> deletion_approved(force, answer),
{
    if !force && answer is Some {
        let a = answer->0@;
        if confirms(a) {
            let k = choose|k: int|
                {
                    &&& 0 <= k < a.len()
                    &&& (#[trigger] a[k] == 'y' || a[k] == 'Y')
                    &&& forall|i: int| 0 <= i < a.len() && i != k ==> is_white_space(a[i])
                };
            assert(a[k] == 'y' || a[k] == 'Y');
        }
    }
}

} // verus!
