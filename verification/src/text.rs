use vstd::prelude::*;

verus! {

/// Unicode `White_Space`, the property that `char::is_whitespace` tests.
pub open spec fn is_white_space(c: char) -> bool {
    ||| '\u{9}' <= c <= '\u{d}'
    ||| c == ' '
    ||| c == '\u{85}'
    ||| c == '\u{a0}'
    ||| c == '\u{1680}'
    ||| '\u{2000}' <= c <= '\u{200a}'
    ||| c == '\u{2028}'
    ||| c == '\u{2029}'
    ||| c == '\u{202f}'
    ||| c == '\u{205f}'
    ||| c == '\u{3000}'
}

/// `s` without its leading white space.
pub open spec fn trim_start_spec(s: Seq<char>) -> Seq<char>
    decreases s.len(),
{
    if s.len() > 0 && is_white_space(s[0]) {
        trim_start_spec(s.drop_first())
    } else {
        s
    }
}

/// `s` without its trailing white space.
pub open spec fn trim_end_spec(s: Seq<char>) -> Seq<char>
    decreases s.len(),
{
    if s.len() > 0 && is_white_space(s.last()) {
        trim_end_spec(s.drop_last())
    } else {
        s
    }
}

/// `s` without leading and trailing white space.
pub open spec fn trim_spec(s: Seq<char>) -> Seq<char> {
    trim_end_spec(trim_start_spec(s))
}

/// Printable ASCII other than the space: `'!'` to `'~'`.
pub open spec fn is_visible_ascii(c: char) -> bool {
    '!' <= c <= '~'
}

/// Every character of `s` is visible ASCII.
pub open spec fn all_visible_ascii(s: Seq<char>) -> bool {
    forall|i: int| 0 <= i < s.len() ==> is_visible_ascii(#[trigger] s[i])
}

/// `str::trim`: `s` without leading and trailing white space.
#[verifier::external_body]
pub(crate) fn trim_white_space(s: &str) -> (res: &str)
    ensures
        res@ == trim_spec(s@),
{
    s.trim()
}

/// Trimming leaves visible ASCII text unchanged.
pub proof fn lemma_trim_visible(s: Seq<char>)
    requires
        all_visible_ascii(s),
    ensures
        trim_spec(s) == s,
{
    if s.len() > 0 {
        assert(is_visible_ascii(s[0]));
        assert(is_visible_ascii(s[s.len() - 1]));
    }
}

/// Trimming a line of visible ASCII text that ends in a newline gives the text.
pub proof fn lemma_trim_line(s: Seq<char>)
    requires
        all_visible_ascii(s),
    ensures
        trim_spec(s.push('\n')) == s,
{
    let line = s.push('\n');
    if s.len() == 0 {
        assert(line[0] == '\n');
        assert(line.drop_first() =~= s);
        assert(trim_start_spec(s) == s);
        assert(trim_start_spec(line) == s);
        assert(trim_end_spec(s) == s);
    } else {
        assert(line[0] == s[0]);
        assert(is_visible_ascii(s[0]));
        assert(trim_start_spec(line) == line);
        assert(line.drop_last() =~= s);
        lemma_trim_visible(s);
        assert(is_visible_ascii(s[s.len() - 1]));
        assert(trim_end_spec(s) == s);
    }
}

} // verus!
