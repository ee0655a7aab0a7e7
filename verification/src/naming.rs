//! The name under which a cropped image is written.

use vstd::prelude::*;
use vstd::string::*;

verus! {

/// The position of the last `c` in `s`, or -1 where `s` holds none.
pub open spec fn last_index_of(s: Seq<char>, c: char) -> int
    decreases s.len(),
{
    if s.len() == 0 {
        -1
    } else if s.last() == c {
        s.len() - 1
    } else {
        last_index_of(s.drop_last(), c)
    }
}

/// The file name with the tag put before its extension: `stem_tag.ext`,
/// the extension being what follows the last dot. A name without a dot is
/// all stem, and the result is `name_tag`, with no dot added.
pub open spec fn tagged_name(name: Seq<char>, tag: Seq<char>) -> Seq<char> {
    let i = last_index_of(name, '.');
    if i < 0 {
        name + seq!['_'] + tag
    } else {
        name.subrange(0, i) + seq!['_'] + tag + seq!['.'] + name.subrange(i + 1, name.len() as int)
    }
}

/// `last_index_of` finds a position that holds `c` and has no `c` after it.
pub proof fn lemma_last_index_found(s: Seq<char>, c: char, i: int)
    requires
        0 <= i < s.len(),
        s[i] == c,
        forall|j: int| i < j < s.len() ==> #[trigger] s[j] != c,
    ensures
        last_index_of(s, c) == i,
    decreases s.len(),
{
    if s.last() != c {
        lemma_last_index_found(s.drop_last(), c, i);
    }
}

/// `last_index_of` is -1 exactly where no position holds `c`.
pub proof fn lemma_last_index_absent(s: Seq<char>, c: char)
    requires
        forall|j: int| 0 <= j < s.len() ==> #[trigger] s[j] != c,
    ensures
        last_index_of(s, c) == -1,
    decreases s.len(),
{
    if s.len() > 0 {
        lemma_last_index_absent(s.drop_last(), c);
    }
}

/// Builds the name of the cropped output from the source file's name and the tag.
pub fn tagged_file_name(file_name: &str, tag: &str) -> (r: String)
    ensures
        r@ == tagged_name(file_name@, tag@),
{
    let n: usize = file_name.unicode_len();
    let mut i: usize = n;
    while i > 0 && file_name.get_char(i - 1) != '.'
        invariant
            n == file_name@.len(),
            i <= n,
            forall|j: int| i <= j < n ==> #[trigger] file_name@[j] != '.',
        decreases i,
    {
        i -= 1;
    }
    proof {
        reveal_strlit("_");
        reveal_strlit(".");
        assert("_"@ =~= seq!['_']);
        assert("."@ =~= seq!['.']);
    }
    if i == 0 {
        proof {
            lemma_last_index_absent(file_name@, '.');
        }
        String::from_str(file_name).concat("_").concat(tag)
    } else {
        proof {
            lemma_last_index_found(file_name@, '.', i - 1);
        }
        let stem = file_name.substring_char(0, i - 1);
        let ext = file_name.substring_char(i, n);
        String::from_str(stem).concat("_").concat(tag).concat(".").concat(ext)
    }
}

} // verus!
