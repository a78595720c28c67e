//! Choosing the checkpoint model files among the names in a folder.

use vstd::prelude::*;
use crate::order::{char_views, lex_order, sort_chars};
use crate::text::{chars_of, ends_with, string_from_chars, string_views};

verus! {

/// What `str::to_lowercase` returns for `s` (Unicode lowercase mapping).
pub uninterp spec fn unicode_lowercase(s: Seq<char>) -> Seq<char>;

/// `s` in lowercase.
///
/// Trusted: calls std's `str::to_lowercase`; the contract names its result
/// `unicode_lowercase(s)` and says nothing more of it.
#[verifier::external_body]
fn lowercase(s: &str) -> (r: String)
    ensures
        r@ == unicode_lowercase(s@),
{
    s.to_lowercase()
}

/// Whether a lowercased file name ends with the extension of a model file:
/// `.safetensors`, `.ckpt`, `.pt`, `.pth`, `.bin` or `.gguf`.
pub open spec fn has_model_extension(lower: Seq<char>) -> bool {
    ||| ends_with(lower, ".safetensors"@)
    ||| ends_with(lower, ".ckpt"@)
    ||| ends_with(lower, ".pt"@)
    ||| ends_with(lower, ".pth"@)
    ||| ends_with(lower, ".bin"@)
    ||| ends_with(lower, ".gguf"@)
}

/// Whether `name` is the name of a checkpoint file: its lowercase form has a
/// model extension.
pub open spec fn is_checkpoint_name(name: Seq<char>) -> bool {
    has_model_extension(unicode_lowercase(name))
}

/// `is_checkpoint_name` as a predicate.
pub open spec fn checkpoint_filter() -> spec_fn(Seq<char>) -> bool {
    |name: Seq<char>| is_checkpoint_name(name)
}

/// The checkpoint names among `names`, in the order of `String`.
pub open spec fn checkpoint_selection(names: Seq<Seq<char>>) -> Seq<Seq<char>> {
    names.filter(checkpoint_filter()).sort_by(lex_order())
}

/// Whether the characters `s` end with `suffix`.
fn chars_end_with(s: &Vec<char>, suffix: &str) -> (r: bool)
    ensures
        r == ends_with(s@, suffix@),
{
    let suf = chars_of(suffix);
    if suf.len() > s.len() {
        return false;
    }
    let offset = s.len() - suf.len();
    let mut k: usize = 0;
    while k < suf.len()
        invariant
            suf@ == suffix@,
            offset + suf@.len() == s@.len(),
            s@.len() <= usize::MAX,
            k <= suf@.len(),
            forall|j: int| 0 <= j < k ==> s@[offset + j] == suf@[j],
        decreases suf@.len() - k,
    {
        if s[offset + k] != suf[k] {
            assert(s@.subrange(offset as int, s@.len() as int)[k as int] != suf@[k as int]);
            return false;
        }
        k = k + 1;
    }
    assert(s@.subrange(offset as int, s@.len() as int) =~= suf@);
    true
}

/// Whether a lowercased file name has the extension of a model file.
pub fn has_checkpoint_extension(lower: &str) -> (r: bool)
    ensures
        r == has_model_extension(lower@),
        r <==> {
            ||| ends_with(lower@, ".safetensors"@)
            ||| ends_with(lower@, ".ckpt"@)
            ||| ends_with(lower@, ".pt"@)
            ||| ends_with(lower@, ".pth"@)
            ||| ends_with(lower@, ".bin"@)
            ||| ends_with(lower@, ".gguf"@)
        },
        ends_with(lower@, ".png"@) ==> !r,
{
    proof {
        crate::laws::model_extensions_are_exactly_these(lower@);
        crate::laws::images_and_notes_are_not_models(lower@);
    }
    let l = chars_of(lower);
    chars_end_with(&l, ".safetensors") || chars_end_with(&l, ".ckpt") || chars_end_with(&l, ".pt")
        || chars_end_with(&l, ".pth") || chars_end_with(&l, ".bin") || chars_end_with(&l, ".gguf")
}

/// The names among `names` whose lowercase forms, given in `lowered` at the
/// same positions, have a model extension, in their order.
pub open spec fn kept_by_lowercase(names: Seq<Seq<char>>, lowered: Seq<Seq<char>>) -> Seq<Seq<char>>
    decreases names.len(),
{
    if names.len() == 0 {
        seq![]
    } else {
        let rest = kept_by_lowercase(names.drop_last(), lowered.drop_last());
        if has_model_extension(lowered.last()) {
            rest.push(names.last())
        } else {
            rest
        }
    }
}

proof fn lemma_kept_is_filter(names: Seq<Seq<char>>, lowered: Seq<Seq<char>>)
    requires
        names.len() == lowered.len(),
        forall|k: int| 0 <= k < names.len() ==> #[trigger] lowered[k] == unicode_lowercase(names[k]),
    ensures
        kept_by_lowercase(names, lowered) == names.filter(checkpoint_filter()),
    decreases names.len(),
{
    if names.len() > 0 {
        let n = names.len() - 1;
        assert forall|k: int| 0 <= k < names.drop_last().len() implies #[trigger] lowered.drop_last()[k]
            == unicode_lowercase(names.drop_last()[k]) by {
            assert(lowered[k] == unicode_lowercase(names[k]));
        }
        lemma_kept_is_filter(names.drop_last(), lowered.drop_last());
        assert(lowered[n] == unicode_lowercase(names[n]));
        assert(checkpoint_filter()(names.last()) == has_model_extension(lowered.last()));
        reveal_with_fuel(Seq::filter, 1);
    }
}

/// The names among `names` whose lowercase forms, `lowered`, have a model
/// extension, sorted.
pub fn select_by_lowercase(names: &Vec<String>, lowered: &Vec<String>) -> (r: Vec<String>)
    requires
        names@.len() == lowered@.len(),
    ensures
        string_views(r@) == kept_by_lowercase(string_views(names@), string_views(lowered@)).sort_by(
            lex_order(),
        ),
{
    let mut kept: Vec<Vec<char>> = Vec::new();
    let n = names.len();
    let mut i: usize = 0;
    while i < n
        invariant
            n == names@.len(),
            n == lowered@.len(),
            i <= n,
            char_views(kept@) == kept_by_lowercase(
                string_views(names@).take(i as int),
                string_views(lowered@).take(i as int),
            ),
        decreases n - i,
    {
        let keep = has_checkpoint_extension(lowered[i].as_str());
        let ghost before = char_views(kept@);
        proof {
            let tn = string_views(names@).take(i + 1);
            let tl = string_views(lowered@).take(i + 1);
            assert(tn.drop_last() =~= string_views(names@).take(i as int));
            assert(tl.drop_last() =~= string_views(lowered@).take(i as int));
            assert(tn.last() == names@[i as int]@);
            assert(tl.last() == lowered@[i as int]@);
        }
        if keep {
            kept.push(chars_of(names[i].as_str()));
            assert(char_views(kept@) =~= before.push(names@[i as int]@));
        }
        i = i + 1;
    }
    assert(string_views(names@).take(n as int) =~= string_views(names@));
    assert(string_views(lowered@).take(n as int) =~= string_views(lowered@));
    let sorted = sort_chars(kept);
    let mut out: Vec<String> = Vec::new();
    let m = sorted.len();
    let mut k: usize = 0;
    while k < m
        invariant
            m == sorted@.len(),
            k <= m,
            string_views(out@) == char_views(sorted@).take(k as int),
        decreases m - k,
    {
        let w = string_from_chars(&sorted[k]);
        let ghost before = string_views(out@);
        out.push(w);
        assert(string_views(out@) =~= before.push(w@));
        assert(char_views(sorted@).take(k + 1) =~= char_views(sorted@).take(k as int).push(
            sorted@[k as int]@,
        ));
        k = k + 1;
    }
    assert(char_views(sorted@).take(m as int) =~= char_views(sorted@));
    out
}

/// The names of checkpoint model files among the file names `names`: those
/// whose lowercase form ends with a model extension, sorted.
pub fn select_checkpoints(names: &Vec<String>) -> (r: Vec<String>)
    ensures
        string_views(r@) == checkpoint_selection(string_views(names@)),
{
    let mut lowered: Vec<String> = Vec::new();
    let n = names.len();
    let mut i: usize = 0;
    while i < n
        invariant
            n == names@.len(),
            i <= n,
            lowered@.len() == i,
            forall|k: int| 0 <= k < i ==> #[trigger] lowered@[k]@ == unicode_lowercase(names@[k]@),
        decreases n - i,
    {
        lowered.push(lowercase(names[i].as_str()));
        i = i + 1;
    }
    proof {
        assert forall|k: int| 0 <= k < string_views(names@).len() implies #[trigger] string_views(
            lowered@,
        )[k] == unicode_lowercase(string_views(names@)[k]) by {
            assert(lowered@[k]@ == unicode_lowercase(names@[k]@));
        }
        lemma_kept_is_filter(string_views(names@), string_views(lowered@));
    }
    select_by_lowercase(names, &lowered)
}

} // verus!
