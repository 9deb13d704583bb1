//! Character-level text helpers shared by the query builders and the job
//! normalizer: splitting, trimming, case folding, substring search and the
//! decimal / hexadecimal renderings that end up in SQL text and job ids.
use vstd::prelude::*;

verus! {

// ---------------------------------------------------------------------------
// Views of string collections
// ---------------------------------------------------------------------------

/// The character sequences of a sequence of strings.
pub open spec fn views(v: Seq<String>) -> Seq<Seq<char>> {
    v.map_values(|s: String| s@)
}

/// The character sequence of an optional string.
pub open spec fn opt_view(o: Option<String>) -> Option<Seq<char>> {
    match o {
        Some(s) => Some(s@),
        None => None,
    }
}

// ---------------------------------------------------------------------------
// Building strings
// ---------------------------------------------------------------------------

/// `String::push`, appending one character.
#[verifier::external_body]
pub(crate) fn push_char(s: &mut String, c: char)
    ensures
        final(s)@ == old(s)@.push(c),
{
    s.push(c);
}

/// Copies a string slice into an owned string.
pub fn owned(s: &str) -> (r: String)
    ensures
        r@ == s@,
{
    s.to_owned()
}

/// Appends `other` to `s`.
pub fn append(s: &mut String, other: &str)
    ensures
        final(s)@ == old(s)@ + other@,
{
    s.append(other);
}

/// The characters of a string slice, in order.
pub fn chars_of(s: &str) -> (v: Vec<char>)
    ensures
        v@ == s@,
{
    let mut v: Vec<char> = Vec::new();
    for c in it: s.chars()
        invariant
            v@ == it.seq().take(it.index() as int),
    {
        v.push(c);
    }
    v
}

/// The string made of `cs[from..to]`.
pub fn string_of(cs: &Vec<char>, from: usize, to: usize) -> (r: String)
    requires
        from <= to <= cs@.len(),
    ensures
        r@ == cs@.subrange(from as int, to as int),
{
    let mut r = String::new();
    let mut i = from;
    while i < to
        invariant
            from <= i <= to <= cs@.len(),
            r@ == cs@.subrange(from as int, i as int),
        decreases to - i,
    {
        push_char(&mut r, cs[i]);
        i = i + 1;
        assert(r@ =~= cs@.subrange(from as int, i as int));
    }
    r
}

/// Whether two strings hold the same characters.
pub fn same_text(a: &str, b: &str) -> (r: bool)
    ensures
        r == (a@ == b@),
{
    let x = chars_of(a);
    let y = chars_of(b);
    if x.len() != y.len() {
        return false;
    }
    let mut i: usize = 0;
    while i < x.len()
        invariant
            x@ == a@,
            y@ == b@,
            x@.len() == y@.len(),
            i <= x@.len(),
            forall|k: int| 0 <= k < i ==> x@[k] == y@[k],
        decreases x.len() - i,
    {
        if x[i] != y[i] {
            return false;
        }
        i = i + 1;
    }
    assert(a@ =~= b@);
    true
}

/// Whether `v` holds a string with the characters of `s`.
pub fn contains_string(v: &Vec<String>, s: &str) -> (r: bool)
    ensures
        r == views(v@).contains(s@),
{
    let mut i: usize = 0;
    while i < v.len()
        invariant
            i <= v@.len(),
            forall|k: int| 0 <= k < i ==> v@[k]@ != s@,
        decreases v.len() - i,
    {
        if same_text(v[i].as_str(), s) {
            assert(views(v@)[i as int] == s@);
            return true;
        }
        i = i + 1;
    }
    proof {
        if views(v@).contains(s@) {
            let k = choose|k: int| 0 <= k < views(v@).len() && views(v@)[k] == s@;
            assert(v@[k]@ == s@);
        }
    }
    false
}

// ---------------------------------------------------------------------------
// Joining
// ---------------------------------------------------------------------------

/// The items joined by `sep`, as `slice::join` does.
pub open spec fn join(items: Seq<Seq<char>>, sep: Seq<char>) -> Seq<char>
    decreases items.len(),
{
    if items.len() == 0 {
        Seq::empty()
    } else if items.len() == 1 {
        items[0]
    } else {
        join(items.drop_last(), sep) + sep + items.last()
    }
}

/// Joins strings with a separator.
pub fn join_strings(items: &Vec<String>, sep: &str) -> (r: String)
    ensures
        r@ == join(views(items@), sep@),
{
    let mut r = String::new();
    let mut i: usize = 0;
    while i < items.len()
        invariant
            i <= items@.len(),
            r@ == join(views(items@).take(i as int), sep@),
        decreases items.len() - i,
    {
        let ghost before = r@;
        if i != 0 {
            append(&mut r, sep);
        }
        append(&mut r, items[i].as_str());
        assert(views(items@).take(i + 1).drop_last() =~= views(items@).take(i as int));
        i = i + 1;
    }
    assert(views(items@).take(items@.len() as int) =~= views(items@));
    r
}

// ---------------------------------------------------------------------------
// Counting characters
// ---------------------------------------------------------------------------

/// How many of the first `n` characters of `s` are `c`.
pub open spec fn count_upto(s: Seq<char>, c: char, n: nat) -> nat
    decreases n,
{
    if n == 0 {
        0
    } else {
        count_upto(s, c, (n - 1) as nat) + if s[n - 1] == c {
            1nat
        } else {
            0nat
        }
    }
}

/// How many characters of `s` are `c`.
pub open spec fn count_char(s: Seq<char>, c: char) -> nat {
    count_upto(s, c, s.len())
}

proof fn lemma_count_upto_agree(s: Seq<char>, t: Seq<char>, c: char, n: nat, off: int)
    requires
        0 <= off,
        off + n <= t.len(),
        n <= s.len(),
        forall|i: int| 0 <= i < n ==> s[i] == t[off + i],
    ensures
        count_upto(s, c, n) + count_upto(t, c, off as nat) == count_upto(t, c, (off + n) as nat),
    decreases n,
{
    if n > 0 {
        lemma_count_upto_agree(s, t, c, (n - 1) as nat, off);
    }
}

/// Counting distributes over concatenation.
pub proof fn lemma_count_concat(a: Seq<char>, b: Seq<char>, c: char)
    ensures
        count_char(a + b, c) == count_char(a, c) + count_char(b, c),
{
    lemma_count_upto_agree(a, a + b, c, a.len(), 0);
    lemma_count_upto_agree(b, a + b, c, b.len(), a.len() as int);
}

/// Total count of `c` over a list of texts.
pub open spec fn count_all(items: Seq<Seq<char>>, c: char) -> nat
    decreases items.len(),
{
    if items.len() == 0 {
        0
    } else {
        count_all(items.drop_last(), c) + count_char(items.last(), c)
    }
}

/// Counting distributes over concatenated lists.
pub proof fn lemma_count_all_concat(a: Seq<Seq<char>>, b: Seq<Seq<char>>, c: char)
    ensures
        count_all(a + b, c) == count_all(a, c) + count_all(b, c),
    decreases b.len(),
{
    if b.len() == 0 {
        assert(a + b =~= a);
    } else {
        assert((a + b).drop_last() =~= a + b.drop_last());
        lemma_count_all_concat(a, b.drop_last(), c);
    }
}

/// A join holds the items' characters plus those of the separators.
pub proof fn lemma_count_join(items: Seq<Seq<char>>, sep: Seq<char>, c: char)
    requires
        count_char(sep, c) == 0,
    ensures
        count_char(join(items, sep), c) == count_all(items, c),
    decreases items.len(),
{
    if items.len() == 0 {
        assert(join(items, sep) =~= Seq::<char>::empty());
    } else if items.len() == 1 {
        assert(items.drop_last() =~= Seq::<Seq<char>>::empty());
        assert(count_all(items.drop_last(), c) == 0);
        assert(items.last() == items[0]);
    } else {
        lemma_count_join(items.drop_last(), sep, c);
        lemma_count_concat(join(items.drop_last(), sep), sep, c);
        lemma_count_concat(join(items.drop_last(), sep) + sep, items.last(), c);
    }
}

/// `n` copies of a text with one `c` hold `n` of them.
pub proof fn lemma_count_all_copies(x: Seq<char>, n: nat, c: char)
    requires
        count_char(x, c) == 1,
    ensures
        count_all(Seq::new(n, |i: int| x), c) == n,
    decreases n,
{
    if n > 0 {
        assert(Seq::new(n, |i: int| x).drop_last() =~= Seq::new((n - 1) as nat, |i: int| x));
        lemma_count_all_copies(x, (n - 1) as nat, c);
    }
}

// ---------------------------------------------------------------------------
// Whitespace and trimming
// ---------------------------------------------------------------------------

/// The Unicode `White_Space` property, which `char::is_whitespace` and the
/// `trim` family of `str` follow.
pub open spec fn is_white_space(c: char) -> bool {
    let u = c as u32;
    ||| 0x09 <= u <= 0x0D
    ||| u == 0x20
    ||| u == 0x85
    ||| u == 0xA0
    ||| u == 0x1680
    ||| 0x2000 <= u <= 0x200A
    ||| u == 0x2028
    ||| u == 0x2029
    ||| u == 0x202F
    ||| u == 0x205F
    ||| u == 0x3000
}

/// Decides [`is_white_space`].
pub fn is_whitespace_char(c: char) -> (r: bool)
    ensures
        r == is_white_space(c),
{
    let u = c as u32;
    (0x09 <= u && u <= 0x0D) || u == 0x20 || u == 0x85 || u == 0xA0 || u == 0x1680 || (0x2000
        <= u && u <= 0x200A) || u == 0x2028 || u == 0x2029 || u == 0x202F || u == 0x205F || u
        == 0x3000
}

/// `s` without its leading whitespace.
pub open spec fn trim_start_seq(s: Seq<char>) -> Seq<char>
    decreases s.len(),
{
    if s.len() > 0 && is_white_space(s[0]) {
        trim_start_seq(s.drop_first())
    } else {
        s
    }
}

/// `s` without its trailing whitespace.
pub open spec fn trim_end_seq(s: Seq<char>) -> Seq<char>
    decreases s.len(),
{
    if s.len() > 0 && is_white_space(s.last()) {
        trim_end_seq(s.drop_last())
    } else {
        s
    }
}

/// `s` without leading and trailing whitespace, as `str::trim` gives it.
pub open spec fn trim_seq(s: Seq<char>) -> Seq<char> {
    trim_end_seq(trim_start_seq(s))
}

/// Where the trimmed text starts and ends in `cs`.
pub fn trim_bounds(cs: &Vec<char>) -> (r: (usize, usize))
    ensures
        r.0 <= r.1 <= cs@.len(),
        cs@.subrange(r.0 as int, r.1 as int) == trim_seq(cs@),
{
    let n = cs.len();
    let mut i: usize = 0;
    assert(cs@.subrange(0, n as int) =~= cs@);
    while i < n && is_whitespace_char(cs[i])
        invariant
            n == cs@.len(),
            i <= n,
            trim_start_seq(cs@) == trim_start_seq(cs@.subrange(i as int, n as int)),
        decreases n - i,
    {
        assert(cs@.subrange(i as int, n as int).drop_first() =~= cs@.subrange(i + 1, n as int));
        i = i + 1;
    }
    assert(trim_start_seq(cs@.subrange(i as int, n as int)) == cs@.subrange(i as int, n as int));
    let mut j: usize = n;
    while j > i && is_whitespace_char(cs[j - 1])
        invariant
            n == cs@.len(),
            i <= j <= n,
            trim_seq(cs@) == trim_end_seq(cs@.subrange(i as int, j as int)),
        decreases j - i,
    {
        assert(cs@.subrange(i as int, j as int).drop_last() =~= cs@.subrange(i as int, j - 1));
        j = j - 1;
    }
    (i, j)
}

/// `str::trim`, as an owned string.
pub fn trim(s: &str) -> (r: String)
    ensures
        r@ == trim_seq(s@),
{
    let cs = chars_of(s);
    let (i, j) = trim_bounds(&cs);
    string_of(&cs, i, j)
}

/// Whether the text is empty once trimmed.
pub fn is_blank(s: &str) -> (r: bool)
    ensures
        r == (trim_seq(s@).len() == 0),
{
    let cs = chars_of(s);
    let (i, j) = trim_bounds(&cs);
    i == j
}

// ---------------------------------------------------------------------------
// Case folding
// ---------------------------------------------------------------------------

/// ASCII lowercase of one character (`char::to_ascii_lowercase`).
pub open spec fn ascii_lower_char(c: char) -> char {
    if 'A' <= c <= 'Z' {
        ((c as u32) + 32) as char
    } else {
        c
    }
}

/// ASCII lowercase of a text (`str::to_ascii_lowercase`).
pub open spec fn ascii_lower(s: Seq<char>) -> Seq<char> {
    s.map_values(|c: char| ascii_lower_char(c))
}

/// `str::to_ascii_lowercase`.
pub fn to_ascii_lowercase(s: &str) -> (r: String)
    ensures
        r@ == ascii_lower(s@),
{
    let cs = chars_of(s);
    let mut r = String::new();
    let mut i: usize = 0;
    while i < cs.len()
        invariant
            cs@ == s@,
            i <= cs@.len(),
            r@ == ascii_lower(cs@.take(i as int)),
        decreases cs.len() - i,
    {
        let c = cs[i];
        let lower = if 'A' <= c && c <= 'Z' {
            ((c as u8) + 32) as char
        } else {
            c
        };
        push_char(&mut r, lower);
        assert(ascii_lower(cs@.take(i + 1)) =~= ascii_lower(cs@.take(i as int)).push(lower));
        i = i + 1;
    }
    assert(cs@.take(cs@.len() as int) =~= cs@);
    r
}

/// What `str::to_lowercase` gives for a text: the Unicode lowercase mapping,
/// which is contextual (a final sigma lowers differently) and so is named here
/// rather than spelled out.
pub uninterp spec fn unicode_lower(s: Seq<char>) -> Seq<char>;

/// `str::to_lowercase`: the result is the Unicode lowercase mapping of `s`,
/// a function of `s` alone. Nothing more is claimed of it.
#[verifier::external_body]
pub(crate) fn to_lowercase(s: &str) -> (r: String)
    ensures
        r@ == unicode_lower(s@),
{
    s.to_lowercase()
}

// ---------------------------------------------------------------------------
// Substrings
// ---------------------------------------------------------------------------

/// `pat` occurs in `s` at position `i`.
pub open spec fn occurs_at(s: Seq<char>, pat: Seq<char>, i: int) -> bool {
    0 <= i && i + pat.len() <= s.len() && s.subrange(i, i + pat.len()) == pat
}

/// `pat` occurs somewhere in `s` (`str::contains`).
pub open spec fn contains_seq(s: Seq<char>, pat: Seq<char>) -> bool {
    exists|i: int| #[trigger] occurs_at(s, pat, i)
}

/// `s` begins with `pat` (`str::starts_with`).
pub open spec fn starts_with_seq(s: Seq<char>, pat: Seq<char>) -> bool {
    occurs_at(s, pat, 0)
}

/// Whether `pat` occurs in `s` at position `i`.
pub fn occurs_at_exec(s: &Vec<char>, pat: &Vec<char>, i: usize) -> (r: bool)
    ensures
        r == occurs_at(s@, pat@, i as int),
{
    let n = s.len();
    if i > n || pat.len() > n - i {
        return false;
    }
    let mut k: usize = 0;
    while k < pat.len()
        invariant
            n == s@.len(),
            i + pat@.len() <= n,
            k <= pat@.len(),
            forall|m: int| 0 <= m < k ==> s@[i + m] == pat@[m],
        decreases pat.len() - k,
    {
        if s[i + k] != pat[k] {
            assert(s@.subrange(i as int, i + pat@.len())[k as int] != pat@[k as int]);
            return false;
        }
        k = k + 1;
    }
    assert(s@.subrange(i as int, i + pat@.len()) =~= pat@);
    true
}

/// Whether `pat` occurs in `s`.
pub fn contains_chars(s: &Vec<char>, pat: &Vec<char>) -> (r: bool)
    ensures
        r == contains_seq(s@, pat@),
{
    if pat.len() > s.len() {
        assert(forall|i: int| !occurs_at(s@, pat@, i));
        return false;
    }
    let last = s.len() - pat.len();
    let mut i: usize = 0;
    loop
        invariant
            last == s@.len() - pat@.len(),
            i <= last,
            forall|m: int| 0 <= m < i ==> !occurs_at(s@, pat@, m),
        decreases last - i,
    {
        if occurs_at_exec(s, pat, i) {
            return true;
        }
        if i == last {
            assert(forall|m: int| !occurs_at(s@, pat@, m));
            return false;
        }
        i = i + 1;
    }
}

/// `str::contains` for string slices.
pub fn contains_str(s: &str, pat: &str) -> (r: bool)
    ensures
        r == contains_seq(s@, pat@),
{
    let a = chars_of(s);
    let b = chars_of(pat);
    contains_chars(&a, &b)
}

/// Whether any of `pats` occurs in `s`.
pub open spec fn contains_any(s: Seq<char>, pats: Seq<Seq<char>>) -> bool {
    exists|k: int| 0 <= k < pats.len() && #[trigger] contains_seq(s, pats[k])
}

/// Decides [`contains_any`].
pub fn contains_any_of(s: &str, pats: &Vec<&str>) -> (r: bool)
    ensures
        r == contains_any(s@, pats@.map_values(|p: &str| p@)),
{
    let ghost ps = pats@.map_values(|p: &str| p@);
    let mut k: usize = 0;
    while k < pats.len()
        invariant
            ps == pats@.map_values(|p: &str| p@),
            k <= pats@.len(),
            forall|m: int| 0 <= m < k ==> !contains_seq(s@, #[trigger] ps[m]),
        decreases pats.len() - k,
    {
        if contains_str(s, pats[k]) {
            assert(contains_seq(s@, ps[k as int]));
            return true;
        }
        k = k + 1;
    }
    false
}

// ---------------------------------------------------------------------------
// Splitting
// ---------------------------------------------------------------------------

/// Which characters separate the pieces of a split.
#[derive(Clone, Copy)]
pub enum Separator {
    /// `,`
    Comma,
    /// A line break or a full stop.
    LineOrPeriod,
    /// Any Unicode whitespace.
    Whitespace,
}

/// Whether `c` is one of the separator characters of `k`.
pub open spec fn separates(k: Separator, c: char) -> bool {
    match k {
        Separator::Comma => c == ',',
        Separator::LineOrPeriod => c == '\n' || c == '.',
        Separator::Whitespace => is_white_space(c),
    }
}

/// Decides [`separates`].
pub fn separates_exec(k: Separator, c: char) -> (r: bool)
    ensures
        r == separates(k, c),
{
    match k {
        Separator::Comma => c == ',',
        Separator::LineOrPeriod => c == '\n' || c == '.',
        Separator::Whitespace => is_whitespace_char(c),
    }
}

/// The pieces of `s` between separators, as `str::split` yields them: one more
/// piece than there are separators, empty pieces included.
pub open spec fn split_seq(s: Seq<char>, k: Separator) -> Seq<Seq<char>>
    decreases s.len(),
{
    if s.len() == 0 {
        seq![Seq::empty()]
    } else if separates(k, s.last()) {
        split_seq(s.drop_last(), k).push(Seq::empty())
    } else {
        let p = split_seq(s.drop_last(), k);
        p.update(p.len() - 1, p.last().push(s.last()))
    }
}

/// A split always has at least one piece.
pub proof fn lemma_split_nonempty(s: Seq<char>, k: Separator)
    ensures
        split_seq(s, k).len() >= 1,
    decreases s.len(),
{
    if s.len() > 0 {
        lemma_split_nonempty(s.drop_last(), k);
    }
}

/// `str::split` on the separators of `k`.
pub fn split(s: &str, k: Separator) -> (r: Vec<String>)
    ensures
        views(r@) == split_seq(s@, k),
{
    let cs = chars_of(s);
    let mut pieces: Vec<String> = Vec::new();
    let mut current = String::new();
    let mut i: usize = 0;
    proof {
        assert(cs@.take(0) =~= Seq::<char>::empty());
    }
    while i < cs.len()
        invariant
            cs@ == s@,
            i <= cs@.len(),
            views(pieces@).push(current@) == split_seq(cs@.take(i as int), k),
        decreases cs.len() - i,
    {
        let c = cs[i];
        let ghost prev = cs@.take(i as int);
        assert(cs@.take(i + 1).drop_last() =~= prev);
        if separates_exec(k, c) {
            let done = current;
            pieces.push(done);
            current = String::new();
            assert(views(pieces@) =~= split_seq(prev, k));
        } else {
            let ghost p = split_seq(prev, k);
            push_char(&mut current, c);
            assert(views(pieces@).push(current@) =~= p.update(p.len() - 1, p.last().push(c)));
        }
        i = i + 1;
    }
    pieces.push(current);
    assert(cs@.take(cs@.len() as int) =~= cs@);
    assert(views(pieces@) =~= split_seq(cs@, k));
    pieces
}

/// The pieces that are not empty, in order.
pub open spec fn nonempty_pieces(ps: Seq<Seq<char>>) -> Seq<Seq<char>>
    decreases ps.len(),
{
    if ps.len() == 0 {
        Seq::empty()
    } else if ps.last().len() > 0 {
        nonempty_pieces(ps.drop_last()).push(ps.last())
    } else {
        nonempty_pieces(ps.drop_last())
    }
}

/// The words of `s`, as `str::split_whitespace` yields them.
pub open spec fn words_seq(s: Seq<char>) -> Seq<Seq<char>> {
    nonempty_pieces(split_seq(s, Separator::Whitespace))
}

/// `str::split_whitespace`.
pub fn split_whitespace(s: &str) -> (r: Vec<String>)
    ensures
        views(r@) == words_seq(s@),
{
    let pieces = split(s, Separator::Whitespace);
    let mut r: Vec<String> = Vec::new();
    let mut i: usize = 0;
    while i < pieces.len()
        invariant
            views(pieces@) == split_seq(s@, Separator::Whitespace),
            i <= pieces@.len(),
            views(r@) == nonempty_pieces(views(pieces@).take(i as int)),
        decreases pieces.len() - i,
    {
        assert(views(pieces@).take(i + 1).drop_last() =~= views(pieces@).take(i as int));
        if pieces[i].as_str().is_empty() {
        } else {
            r.push(pieces[i].clone());
            assert(views(r@) =~= nonempty_pieces(views(pieces@).take(i as int)).push(
                views(pieces@)[i as int],
            ));
        }
        i = i + 1;
    }
    assert(views(pieces@).take(pieces@.len() as int) =~= views(pieces@));
    r
}

// ---------------------------------------------------------------------------
// Numbers as text
// ---------------------------------------------------------------------------

/// The decimal digit character for `d < 10`.
pub open spec fn digit_char(d: nat) -> char {
    ((48 + d) as u8) as char
}

/// The decimal rendering of `n`, without sign or leading zeros.
pub open spec fn decimal(n: nat) -> Seq<char>
    decreases n,
{
    if n < 10 {
        seq![digit_char(n)]
    } else {
        decimal(n / 10).push(digit_char(n % 10))
    }
}

/// Appends the decimal rendering of `n`.
pub fn push_decimal(s: &mut String, n: usize)
    ensures
        final(s)@ == old(s)@ + decimal(n as nat),
    decreases n,
{
    if n >= 10 {
        push_decimal(s, n / 10);
    }
    let d = (n % 10) as u8;
    push_char(s, (48u8 + d) as char);
    assert(final(s)@ =~= old(s)@ + decimal(n as nat));
}

/// The decimal rendering of `n` (`usize::to_string`).
pub fn decimal_string(n: usize) -> (r: String)
    ensures
        r@ == decimal(n as nat),
{
    let mut r = String::new();
    push_decimal(&mut r, n);
    assert(r@ =~= decimal(n as nat));
    r
}

/// The lowercase hexadecimal digit character for `d < 16`.
pub open spec fn hex_char(d: nat) -> char {
    if d < 10 {
        ((48 + d) as u8) as char
    } else {
        ((87 + d) as u8) as char
    }
}

/// Two lowercase hex digits per byte (`format!("{b:02x}")` for each).
pub open spec fn hex_lower(bytes: Seq<u8>) -> Seq<char>
    decreases bytes.len(),
{
    if bytes.len() == 0 {
        Seq::empty()
    } else {
        hex_lower(bytes.drop_last()) + seq![
            hex_char((bytes.last() / 16) as nat),
            hex_char((bytes.last() % 16) as nat),
        ]
    }
}

fn hex_digit(d: u8) -> (c: char)
    requires
        d < 16,
    ensures
        c == hex_char(d as nat),
{
    if d < 10 {
        (48u8 + d) as char
    } else {
        (87u8 + d) as char
    }
}

/// The lowercase hex rendering of `bytes[..n]`.
pub fn hex_prefix(bytes: &Vec<u8>, n: usize) -> (r: String)
    requires
        n <= bytes@.len(),
    ensures
        r@ == hex_lower(bytes@.take(n as int)),
{
    let mut r = String::new();
    let mut i: usize = 0;
    while i < n
        invariant
            n <= bytes@.len(),
            i <= n,
            r@ == hex_lower(bytes@.take(i as int)),
        decreases n - i,
    {
        let b = bytes[i];
        push_char(&mut r, hex_digit(b / 16));
        push_char(&mut r, hex_digit(b % 16));
        assert(bytes@.take(i + 1).drop_last() =~= bytes@.take(i as int));
        assert(r@ =~= hex_lower(bytes@.take(i + 1)));
        i = i + 1;
    }
    r
}

/// The value of a run of ASCII decimal digits.
pub open spec fn digits_value(s: Seq<char>) -> nat
    decreases s.len(),
{
    if s.len() == 0 {
        0
    } else {
        digits_value(s.drop_last()) * 10 + ((s.last() as u32) - 48) as nat
    }
}

/// Every character is an ASCII digit.
pub open spec fn all_digits(s: Seq<char>) -> bool {
    forall|i: int| 0 <= i < s.len() ==> '0' <= #[trigger] s[i] <= '9'
}

/// What `str::parse::<i64>` gives: an optional `+` or `-`, then one or more
/// ASCII digits, and a value that fits in an `i64`.
pub open spec fn parse_i64_spec(s: Seq<char>) -> Option<i64> {
    let neg = s.len() > 0 && s[0] == '-';
    let signed = s.len() > 0 && (s[0] == '-' || s[0] == '+');
    let ds = if signed { s.drop_first() } else { s };
    if ds.len() == 0 || !all_digits(ds) {
        None
    } else {
        let v: int = if neg { -(digits_value(ds) as int) } else { digits_value(ds) as int };
        if i64::MIN <= v <= i64::MAX {
            Some(v as i64)
        } else {
            None
        }
    }
}

proof fn lemma_digits_value_mono(s: Seq<char>, n: int)
    requires
        0 <= n <= s.len(),
        all_digits(s),
    ensures
        digits_value(s.take(n)) <= digits_value(s),
    decreases s.len() - n,
{
    if n < s.len() {
        lemma_digits_value_mono(s, n + 1);
        assert(s.take(n + 1).drop_last() =~= s.take(n));
        assert('0' <= s[n] <= '9');
    } else {
        assert(s.take(n) =~= s);
    }
}

/// `str::parse::<i64>`.
#[verifier::loop_isolation(false)]
pub fn parse_i64(s: &str) -> (r: Option<i64>)
    ensures
        r == parse_i64_spec(s@),
{
    let cs = chars_of(s);
    let n = cs.len();
    let neg = n > 0 && cs[0] == '-';
    let signed = n > 0 && (cs[0] == '-' || cs[0] == '+');
    let start: usize = if signed { 1 } else { 0 };
    let ghost ds = if signed { cs@.drop_first() } else { cs@ };
    assert(ds =~= cs@.subrange(start as int, n as int));
    if start == n {
        return None;
    }
    let mut k: usize = start;
    while k < n
        invariant
            start <= k <= n == cs@.len(),
            ds == cs@.subrange(start as int, n as int),
            forall|m: int| start <= m < k ==> '0' <= #[trigger] cs@[m] <= '9',
        decreases n - k,
    {
        if cs[k] < '0' || cs[k] > '9' {
            assert(ds[k - start] == cs@[k as int]);
            assert(!all_digits(ds));
            assert(ds == (if signed { s@.drop_first() } else { s@ }));
            assert(parse_i64_spec(s@) is None);
            return None;
        }
        k = k + 1;
    }
    assert(forall|m: int| start <= m < n ==> '0' <= #[trigger] cs@[m] <= '9');
    assert(all_digits(ds)) by {
        assert forall|i: int| 0 <= i < ds.len() implies '0' <= #[trigger] ds[i] <= '9' by {
            assert(ds[i] == cs@[start + i]);
        }
    }
    // Accumulate the magnitude, stopping once it leaves the range of i64.
    let limit: u64 = if neg { 9223372036854775808u64 } else { 9223372036854775807u64 };
    let mut acc: u64 = 0;
    let mut i: usize = start;
    while i < n
        invariant
            start <= i <= n == cs@.len(),
            ds == cs@.subrange(start as int, n as int),
            all_digits(ds),
            acc == digits_value(ds.take(i - start)),
            forall|m: int| start <= m < n ==> '0' <= #[trigger] cs@[m] <= '9',
            acc <= limit,
            limit <= 9223372036854775808u64,
        decreases n - i,
    {
        assert('0' <= cs@[i as int] <= '9');
        let d = (cs[i] as u32 - 48) as u64;
        assert(ds[i - start] == cs@[i as int]);
        assert(ds.take(i + 1 - start).drop_last() =~= ds.take(i - start));
        if acc > (limit - d) / 10 {
            proof {
                assert(digits_value(ds.take(i + 1 - start)) == acc * 10 + d);
                assert(acc * 10 + d > limit) by (nonlinear_arith)
                    requires
                        acc > (limit - d) / 10,
                        d <= 9,
                        d <= limit,
                ;
                lemma_digits_value_mono(ds, i + 1 - start);
                assert(ds == (if signed { s@.drop_first() } else { s@ }));
                assert(digits_value(ds) > limit);
                assert(parse_i64_spec(s@) is None);
            }
            return None;
        }
        assert(acc * 10 + d <= limit) by (nonlinear_arith)
            requires
                acc <= (limit - d) / 10,
                d <= 9,
                d <= limit,
        ;
        acc = acc * 10 + d;
        i = i + 1;
    }
    assert(ds.take(n - start) =~= ds);
    if neg {
        if acc == 9223372036854775808u64 {
            Some(i64::MIN)
        } else {
            Some(-(acc as i64))
        }
    } else {
        Some(acc as i64)
    }
}

} // verus!
