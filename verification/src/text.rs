use vstd::prelude::*;

verus! {

/// The texts of a sequence of strings.
pub open spec fn texts(v: Seq<String>) -> Seq<Seq<char>> {
    Seq::new(v.len(), |i: int| v[i]@)
}

/// Every part, each followed by `sep`, one after the other.
pub open spec fn terminated(parts: Seq<Seq<char>>, sep: Seq<char>) -> Seq<char>
    decreases parts.len(),
{
    if parts.len() == 0 {
        Seq::empty()
    } else {
        terminated(parts.drop_last(), sep) + parts.last() + sep
    }
}

/// The parts with `sep` between each two neighbours.
pub open spec fn joined(parts: Seq<Seq<char>>, sep: Seq<char>) -> Seq<char>
    decreases parts.len(),
{
    if parts.len() == 0 {
        Seq::empty()
    } else if parts.len() == 1 {
        parts[0]
    } else {
        joined(parts.drop_last(), sep) + sep + parts.last()
    }
}

/// The concatenation of all parts.
pub open spec fn concatenated(parts: Seq<Seq<char>>) -> Seq<char>
    decreases parts.len(),
{
    if parts.len() == 0 {
        Seq::empty()
    } else {
        concatenated(parts.drop_last()) + parts.last()
    }
}

/// What `char::escape_debug` writes for `c`.
pub uninterp spec fn debug_escaped(c: char) -> Seq<char>;

/// Calls `char::escape_debug` on `c` and collects what it yields into a
/// `String`. The contract claims only that the result is a function of `c`.
#[verifier::external_body]
fn escape_debug(c: char) -> (res: String)
    ensures
        res@ == debug_escaped(c),
{
    c.escape_debug().to_string()
}

/// How the character at `i` is written inside a Rust string literal: a nul
/// as `\0`, or as `\x00` before an octal digit; a single quote as it is;
/// any other character as `char::escape_debug` writes it.
pub open spec fn escape_at(s: Seq<char>, i: int) -> Seq<char> {
    if s[i] == '\0' {
        if i + 1 < s.len() && '0' <= s[i + 1] && s[i + 1] <= '7' {
            "\\x00"@
        } else {
            "\\0"@
        }
    } else if s[i] == '\'' {
        "'"@
    } else {
        debug_escaped(s[i])
    }
}

/// The first `n` characters of `s`, as written inside a Rust string literal.
pub open spec fn escaped_upto(s: Seq<char>, n: nat) -> Seq<char>
    decreases n,
{
    if n == 0 {
        Seq::empty()
    } else {
        escaped_upto(s, (n - 1) as nat) + escape_at(s, n - 1)
    }
}

/// The body of a Rust string literal whose value is `s`.
pub open spec fn escaped(s: Seq<char>) -> Seq<char> {
    escaped_upto(s, s.len())
}

/// A Rust string literal whose value is `s`.
pub open spec fn literal(s: Seq<char>) -> Seq<char> {
    seq!['"'] + escaped(s) + seq!['"']
}

/// Pushing a string pushes its text.
pub proof fn lemma_texts_push(v: Seq<String>, s: String)
    ensures
        texts(v.push(s)) == texts(v).push(s@),
{
    assert(texts(v.push(s)) =~= texts(v).push(s@));
}

proof fn lemma_texts_take_step(v: Seq<String>, i: int)
    requires
        0 <= i < v.len(),
    ensures
        texts(v).take(i + 1).drop_last() == texts(v).take(i),
        texts(v).take(i + 1).last() == v[i]@,
        texts(v).take(i + 1).len() == i + 1,
{
    assert(texts(v).take(i + 1).drop_last() =~= texts(v).take(i));
}

/// Writes every part followed by `sep`.
pub fn terminated_text(parts: &Vec<String>, sep: &str) -> (res: String)
    ensures
        res@ == terminated(texts(parts@), sep@),
{
    let mut res = String::new();
    let n = parts.len();
    let mut i: usize = 0;
    while i < n
        invariant
            n == parts@.len(),
            i <= n,
            res@ == terminated(texts(parts@).take(i as int), sep@),
        decreases n - i,
    {
        proof {
            lemma_texts_take_step(parts@, i as int);
        }
        res.append(parts[i].as_str());
        res.append(sep);
        i = i + 1;
    }
    assert(texts(parts@).take(n as int) =~= texts(parts@));
    res
}

/// Writes the parts with `sep` between each two neighbours.
pub fn joined_text(parts: &Vec<String>, sep: &str) -> (res: String)
    ensures
        res@ == joined(texts(parts@), sep@),
{
    let mut res = String::new();
    let n = parts.len();
    let mut i: usize = 0;
    while i < n
        invariant
            n == parts@.len(),
            i <= n,
            res@ == joined(texts(parts@).take(i as int), sep@),
        decreases n - i,
    {
        proof {
            lemma_texts_take_step(parts@, i as int);
        }
        if i > 0 {
            res.append(sep);
        } else {
            assert(res@ + parts@[0]@ =~= parts@[0]@);
        }
        res.append(parts[i].as_str());
        i = i + 1;
    }
    assert(texts(parts@).take(n as int) =~= texts(parts@));
    res
}

/// Writes all parts one after the other.
pub fn concatenated_text(parts: &Vec<String>) -> (res: String)
    ensures
        res@ == concatenated(texts(parts@)),
{
    let mut res = String::new();
    let n = parts.len();
    let mut i: usize = 0;
    while i < n
        invariant
            n == parts@.len(),
            i <= n,
            res@ == concatenated(texts(parts@).take(i as int)),
        decreases n - i,
    {
        proof {
            lemma_texts_take_step(parts@, i as int);
        }
        res.append(parts[i].as_str());
        i = i + 1;
    }
    assert(texts(parts@).take(n as int) =~= texts(parts@));
    res
}

/// Writes `s` as a Rust string literal.
pub fn literal_text(s: &str) -> (res: String)
    ensures
        res@ == literal(s@),
{
    let mut body = String::new();
    let n = s.unicode_len();
    let mut i: usize = 0;
    while i < n
        invariant
            n == s@.len(),
            i <= n,
            body@ == escaped_upto(s@, i as nat),
        decreases n - i,
    {
        let c = s.get_char(i);
        if c == '\0' {
            if i + 1 < n {
                let d = s.get_char(i + 1);
                if '0' <= d && d <= '7' {
                    body.append("\\x00");
                } else {
                    body.append("\\0");
                }
            } else {
                body.append("\\0");
            }
        } else if c == '\'' {
            body.append("'");
        } else {
            let e = escape_debug(c);
            body.append(e.as_str());
        }
        i = i + 1;
    }
    let mut res = String::new();
    res.append("\"");
    proof { reveal_strlit("\""); }
    assert("\""@ =~= seq!['"']);
    res.append(body.as_str());
    res.append("\"");
    res
}

} // verus!
