use vstd::prelude::*;

verus! {

/// Whether `c` is white space, as Unicode defines it (White_Space).
pub open spec fn white_space(c: char) -> bool {
    let code: u32 = c as u32;
    ||| 0x09 <= code <= 0x0D
    ||| code == 0x20
    ||| code == 0x85
    ||| code == 0xA0
    ||| code == 0x1680
    ||| 0x2000 <= code <= 0x200A
    ||| code == 0x2028
    ||| code == 0x2029
    ||| code == 0x202F
    ||| code == 0x205F
    ||| code == 0x3000
}

/// `text` without the white space at its start.
pub open spec fn trim_start(text: Seq<char>) -> Seq<char>
    decreases text.len(),
{
    if text.len() > 0 && white_space(text.first()) {
        trim_start(text.drop_first())
    } else {
        text
    }
}

/// `text` without the white space at its end.
pub open spec fn trim_end(text: Seq<char>) -> Seq<char>
    decreases text.len(),
{
    if text.len() > 0 && white_space(text.last()) {
        trim_end(text.drop_last())
    } else {
        text
    }
}

/// `text` without the white space at either end.
pub open spec fn trim(text: Seq<char>) -> Seq<char> {
    trim_end(trim_start(text))
}

/// The marker that opens a fenced block of JSON: three backticks and `json`.
pub open spec fn opening_fence() -> Seq<char> {
    seq!['`', '`', '`', 'j', 's', 'o', 'n']
}

/// The marker that closes a fenced block: three backticks.
pub open spec fn closing_fence() -> Seq<char> {
    seq!['`', '`', '`']
}

/// `text` without `prefix` at its start, where it starts with it.
pub open spec fn without_prefix(text: Seq<char>, prefix: Seq<char>) -> Seq<char> {
    if prefix.is_prefix_of(text) {
        text.skip(prefix.len() as int)
    } else {
        text
    }
}

/// `text` without `suffix` at its end, where it ends with it.
pub open spec fn without_suffix(text: Seq<char>, suffix: Seq<char>) -> Seq<char> {
    if suffix.is_suffix_of(text) {
        text.take(text.len() - suffix.len())
    } else {
        text
    }
}

/// The test that keeps every character but the line feed.
pub open spec fn not_newline() -> spec_fn(char) -> bool {
    |c: char| c != '\n'
}

/// `text` without its line feeds.
pub open spec fn without_newlines(text: Seq<char>) -> Seq<char> {
    text.filter(not_newline())
}

/// `text` with its fences taken off: trimmed first, then without one opening
/// fence at the start and one closing fence at the end.
pub open spec fn unfenced(text: Seq<char>) -> Seq<char> {
    without_suffix(without_prefix(trim(text), opening_fence()), closing_fence())
}

/// The text that is decoded as the command payload: `raw` trimmed, without
/// its fences, and without any line feed.
pub open spec fn cleaned(raw: Seq<char>) -> Seq<char> {
    without_newlines(unfenced(raw))
}

/// Tells whether `c` is white space, as Unicode defines it.
pub fn is_whitespace(c: char) -> (yes: bool)
    ensures
        yes == white_space(c),
{
    let code: u32 = c as u32;
    (0x09 <= code && code <= 0x0D) || code == 0x20 || code == 0x85 || code == 0xA0 || code
        == 0x1680 || (0x2000 <= code && code <= 0x200A) || code == 0x2028 || code == 0x2029
        || code == 0x202F || code == 0x205F || code == 0x3000
}

/// The characters of `text`, in order.
pub fn chars_of(text: &str) -> (chars: Vec<char>)
    ensures
        chars@ == text@,
{
    let mut chars: Vec<char> = Vec::new();
    for c in it: text.chars()
        invariant
            it.seq() == text@,
            chars@ == text@.take(it.index() as int),
    {
        assert(text@.take(it.index() + 1) =~= text@.take(it.index() as int).push(c));
        chars.push(c);
    }
    assert(text@.take(text@.len() as int) =~= text@);
    chars
}

/// `trim_start` drops exactly the leading run of white space.
pub proof fn lemma_trim_start(text: Seq<char>, n: int)
    requires
        0 <= n <= text.len(),
        forall|j: int| 0 <= j < n ==> white_space(text[j]),
        n == text.len() || !white_space(text[n]),
    ensures
        trim_start(text) == text.skip(n),
    decreases n,
{
    if n > 0 {
        assert(text.drop_first().skip(n - 1) =~= text.skip(n));
        lemma_trim_start(text.drop_first(), n - 1);
    } else {
        assert(text.skip(0) =~= text);
    }
}

/// `trim_end` drops exactly the trailing run of white space.
pub proof fn lemma_trim_end(text: Seq<char>, n: int)
    requires
        0 <= n <= text.len(),
        forall|j: int| n <= j < text.len() ==> white_space(text[j]),
        n == 0 || !white_space(text[n - 1]),
    ensures
        trim_end(text) == text.take(n),
    decreases text.len() - n,
{
    if n < text.len() {
        assert(text.drop_last().take(n) =~= text.take(n));
        lemma_trim_end(text.drop_last(), n);
    } else {
        assert(text.take(n) =~= text);
    }
}

/// The bounds of `chars` without the white space at either end.
fn trim_bounds(chars: &Vec<char>) -> (bounds: (usize, usize))
    ensures
        bounds.0 <= bounds.1 <= chars.len(),
        chars@.subrange(bounds.0 as int, bounds.1 as int) == trim(chars@),
{
    let mut lo: usize = 0;
    while lo < chars.len() && is_whitespace(chars[lo])
        invariant
            lo <= chars.len(),
            forall|j: int| 0 <= j < lo ==> white_space(chars@[j]),
        decreases chars.len() - lo,
    {
        lo += 1;
    }
    let mut hi: usize = chars.len();
    while hi > lo && is_whitespace(chars[hi - 1])
        invariant
            lo <= hi <= chars.len(),
            forall|j: int| hi <= j < chars.len() ==> white_space(chars@[j]),
        decreases hi,
    {
        hi -= 1;
    }
    proof {
        let rest = chars@.skip(lo as int);
        lemma_trim_start(chars@, lo as int);
        lemma_trim_end(rest, hi - lo);
        assert(rest.take(hi - lo) =~= chars@.subrange(lo as int, hi as int));
    }
    (lo, hi)
}

/// Tells whether the part of `chars` from `lo` up to `hi` starts with `pattern`.
fn starts_with(chars: &Vec<char>, lo: usize, hi: usize, pattern: &Vec<char>) -> (yes: bool)
    requires
        lo <= hi <= chars.len(),
    ensures
        yes == pattern@.is_prefix_of(chars@.subrange(lo as int, hi as int)),
{
    if pattern.len() > hi - lo {
        return false;
    }
    let ghost part = chars@.subrange(lo as int, hi as int);
    let mut i: usize = 0;
    while i < pattern.len()
        invariant
            i <= pattern.len() <= hi - lo,
            lo <= hi <= chars.len(),
            part == chars@.subrange(lo as int, hi as int),
            forall|j: int| 0 <= j < i ==> pattern@[j] == part[j],
        decreases pattern.len() - i,
    {
        if chars[lo + i] != pattern[i] {
            assert(part.subrange(0, pattern@.len() as int)[i as int] != pattern@[i as int]);
            return false;
        }
        i += 1;
    }
    true
}

/// Tells whether the part of `chars` from `lo` up to `hi` ends with `pattern`.
fn ends_with(chars: &Vec<char>, lo: usize, hi: usize, pattern: &Vec<char>) -> (yes: bool)
    requires
        lo <= hi <= chars.len(),
    ensures
        yes == pattern@.is_suffix_of(chars@.subrange(lo as int, hi as int)),
{
    if pattern.len() > hi - lo {
        return false;
    }
    let start: usize = hi - pattern.len();
    let ghost part = chars@.subrange(lo as int, hi as int);
    let mut i: usize = 0;
    while i < pattern.len()
        invariant
            i <= pattern.len() <= hi - lo,
            lo <= hi <= chars.len(),
            start == hi - pattern.len(),
            part == chars@.subrange(lo as int, hi as int),
            forall|j: int| 0 <= j < i ==> pattern@[j] == part[part.len() - pattern@.len() + j],
        decreases pattern.len() - i,
    {
        if chars[start + i] != pattern[i] {
            assert(part.subrange(part.len() - pattern@.len(), part.len() as int)[i as int]
                != pattern@[i as int]);
            return false;
        }
        i += 1;
    }
    true
}

/// `String::push` of std appends one character at the end of the string.
pub assume_specification[ std::string::String::push ](text: &mut std::string::String, c: char)
    ensures
        final(text)@ == old(text)@.push(c),
;

/// The characters of `chars` from `lo` up to `hi` that are no line feed.
fn collect_without_newlines(chars: &Vec<char>, lo: usize, hi: usize) -> (text: String)
    requires
        lo <= hi <= chars.len(),
    ensures
        text@ == without_newlines(chars@.subrange(lo as int, hi as int)),
{
    let mut text = String::new();
    let mut i: usize = lo;
    proof {
        reveal(Seq::filter);
        assert(chars@.subrange(lo as int, lo as int) =~= Seq::<char>::empty());
    }
    while i < hi
        invariant
            lo <= i <= hi <= chars.len(),
            text@ == without_newlines(chars@.subrange(lo as int, i as int)),
        decreases hi - i,
    {
        let c = chars[i];
        proof {
            reveal(Seq::filter);
            let next = chars@.subrange(lo as int, i + 1);
            assert(next.drop_last() =~= chars@.subrange(lo as int, i as int));
            assert(next.last() == c);
        }
        if c != '\n' {
            text.push(c);
        }
        i += 1;
    }
    text
}

/// Prepares the text of a reply for decoding: trims it, takes one opening
/// fence off its start and one closing fence off its end, and removes every
/// line feed.
pub fn clean_text(raw: &str) -> (text: String)
    ensures
        text@ == cleaned(raw@),
{
    let chars = chars_of(raw);
    let (start, end) = trim_bounds(&chars);
    let opening: Vec<char> = vec!['`', '`', '`', 'j', 's', 'o', 'n'];
    let closing: Vec<char> = vec!['`', '`', '`'];
    assert(opening@ =~= opening_fence());
    assert(closing@ =~= closing_fence());
    let ghost trimmed = chars@.subrange(start as int, end as int);
    let lo: usize = if starts_with(&chars, start, end, &opening) {
        start + opening.len()
    } else {
        start
    };
    let ghost opened = chars@.subrange(lo as int, end as int);
    assert(opened =~= without_prefix(trimmed, opening_fence()));
    let hi: usize = if ends_with(&chars, lo, end, &closing) {
        end - closing.len()
    } else {
        end
    };
    assert(chars@.subrange(lo as int, hi as int) =~= without_suffix(opened, closing_fence()));
    collect_without_newlines(&chars, lo, hi)
}

/// `without_newlines` leaves no line feed behind.
proof fn lemma_filtered_has_no_newline(text: Seq<char>)
    ensures
        forall|i: int|
            0 <= i < without_newlines(text).len() ==> without_newlines(text)[i] != '\n',
    decreases text.len(),
{
    reveal(Seq::filter);
    if text.len() > 0 {
        lemma_filtered_has_no_newline(text.drop_last());
    }
}

/// A text without line feeds is left as it is by `without_newlines`.
pub proof fn lemma_without_newlines_keeps(text: Seq<char>)
    requires
        forall|i: int| 0 <= i < text.len() ==> text[i] != '\n',
    ensures
        without_newlines(text) == text,
    decreases text.len(),
{
    reveal(Seq::filter);
    if text.len() > 0 {
        lemma_without_newlines_keeps(text.drop_last());
        assert(text.drop_last().push(text.last()) =~= text);
    }
}

/// No line feed is left in a cleaned text.
pub proof fn lemma_cleaned_has_no_newline(raw: Seq<char>)
    ensures
        forall|i: int| 0 <= i < cleaned(raw).len() ==> cleaned(raw)[i] != '\n',
{
    lemma_filtered_has_no_newline(unfenced(raw));
}

/// Cleaning changes nothing in a text that is clean already: one that
/// neither starts nor ends with white space, has no fence at either end and
/// holds no line feed.
pub proof fn lemma_clean_text_is_fixed(text: Seq<char>)
    requires
        text.len() > 0 ==> !white_space(text.first()) && !white_space(text.last()),
        !opening_fence().is_prefix_of(text),
        !closing_fence().is_suffix_of(text),
        forall|i: int| 0 <= i < text.len() ==> text[i] != '\n',
    ensures
        cleaned(text) == text,
{
    lemma_without_newlines_keeps(text);
}

/// A fenced block cleans to what stands between its fences, without the
/// line feeds, whatever white space surrounds the block.
pub proof fn lemma_fenced_block_cleans_to_its_inside(
    lead: Seq<char>,
    inside: Seq<char>,
    trail: Seq<char>,
)
    requires
        forall|i: int| 0 <= i < lead.len() ==> white_space(lead[i]),
        forall|i: int| 0 <= i < trail.len() ==> white_space(trail[i]),
    ensures
        cleaned(lead + opening_fence() + inside + closing_fence() + trail) == without_newlines(
            inside,
        ),
{
    let block = opening_fence() + inside + closing_fence();
    let whole = lead + opening_fence() + inside + closing_fence() + trail;
    assert(!white_space('`'));
    assert(block.first() == '`');
    assert(block.last() == '`');
    assert(whole =~= lead + (block + trail));
    lemma_trim_start(whole, lead.len() as int);
    assert(whole.skip(lead.len() as int) =~= block + trail);
    lemma_trim_end(block + trail, block.len() as int);
    assert((block + trail).take(block.len() as int) =~= block);
    assert(trim(whole) == block);
    assert(block.subrange(0, opening_fence().len() as int) =~= opening_fence());
    assert(block.skip(opening_fence().len() as int) =~= inside + closing_fence());
    let rest = inside + closing_fence();
    assert(rest.subrange(rest.len() - closing_fence().len(), rest.len() as int)
        =~= closing_fence());
    assert(rest.take(rest.len() - closing_fence().len()) =~= inside);
}

} // verus!
