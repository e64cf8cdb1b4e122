//! Text helpers shared by the type renderer, the naming rules and the ledger.
use vstd::prelude::*;

verus! {

/// The views of a sequence of strings.
pub open spec fn views(parts: Seq<String>) -> Seq<Seq<char>> {
    parts.map_values(|p: String| p@)
}

/// `parts` with `sep` between each two consecutive parts.
pub open spec fn join(parts: Seq<Seq<char>>, sep: Seq<char>) -> Seq<char>
    decreases parts.len(),
{
    if parts.len() == 0 {
        Seq::empty()
    } else if parts.len() == 1 {
        parts[0]
    } else {
        join(parts.drop_last(), sep) + sep + parts.last()
    }
}

/// The views of a rendering result.
pub open spec fn result_view(r: Result<String, String>) -> Result<Seq<char>, Seq<char>> {
    match r {
        Ok(s) => Ok(s@),
        Err(e) => Err(e@),
    }
}

/// The error of the first part, in order, that failed.
pub open spec fn first_error(parts: Seq<Result<Seq<char>, Seq<char>>>) -> Option<Seq<char>>
    decreases parts.len(),
{
    if parts.len() == 0 {
        None
    } else {
        match first_error(parts.drop_last()) {
            Some(e) => Some(e),
            None => match parts.last() {
                Err(e) => Some(e),
                Ok(_) => None,
            },
        }
    }
}

/// The contents of parts that all succeeded.
pub open spec fn unwrap_oks(parts: Seq<Result<Seq<char>, Seq<char>>>) -> Seq<Seq<char>> {
    Seq::new(parts.len(), |i: int| parts[i]->Ok_0)
}

/// The parts joined by `sep` when all succeeded; otherwise the error of the
/// first part that failed.
pub open spec fn join_results(parts: Seq<Result<Seq<char>, Seq<char>>>, sep: Seq<char>) -> Result<
    Seq<char>,
    Seq<char>,
> {
    match first_error(parts) {
        Some(e) => Err(e),
        None => Ok(join(unwrap_oks(parts), sep)),
    }
}

/// A failure among the first parts is the first failure of all of them.
pub proof fn lemma_first_error_prefix(parts: Seq<Result<Seq<char>, Seq<char>>>, i: int)
    requires
        0 <= i <= parts.len(),
        first_error(parts.subrange(0, i)) is Some,
    ensures
        first_error(parts) == first_error(parts.subrange(0, i)),
    decreases parts.len() - i,
{
    if i < parts.len() {
        assert(parts.subrange(0, i + 1).drop_last() =~= parts.subrange(0, i));
        lemma_first_error_prefix(parts, i + 1);
    } else {
        assert(parts.subrange(0, i) =~= parts);
    }
}

/// `s` with each `::`, scanned from the left, replaced by `_`.
pub open spec fn replace_scope_separators(s: Seq<char>) -> Seq<char>
    decreases s.len(),
{
    if s.len() == 0 {
        Seq::empty()
    } else if s.len() >= 2 && s[0] == ':' && s[1] == ':' {
        seq!['_'] + replace_scope_separators(s.subrange(2, s.len() as int))
    } else {
        seq![s[0]] + replace_scope_separators(s.subrange(1, s.len() as int))
    }
}

/// What HTML escaping turns one character into.
pub open spec fn escape_html_char(c: char) -> Seq<char> {
    if c == '&' {
        "&amp;"@
    } else if c == '<' {
        "&lt;"@
    } else if c == '>' {
        "&gt;"@
    } else if c == '\n' {
        "<br>"@
    } else {
        seq![c]
    }
}

/// `s` with each character escaped for HTML.
pub open spec fn escape_html_spec(s: Seq<char>) -> Seq<char>
    decreases s.len(),
{
    if s.len() == 0 {
        Seq::empty()
    } else {
        escape_html_spec(s.drop_last()) + escape_html_char(s.last())
    }
}

/// A new string with the contents of `s`.
pub fn owned(s: &str) -> (r: String)
    ensures
        r@ == s@,
{
    s.to_owned()
}

/// Joins the strings with `sep` between each two consecutive ones.
pub fn join_strings(parts: &Vec<String>, sep: &str) -> (r: String)
    ensures
        r@ == join(views(parts@), sep@),
{
    let mut r = String::new();
    let mut i: usize = 0;
    while i < parts.len()
        invariant
            i <= parts@.len(),
            r@ == join(views(parts@.subrange(0, i as int)), sep@),
        decreases parts@.len() - i,
    {
        proof {
            let next = views(parts@.subrange(0, i + 1));
            assert(next.drop_last() =~= views(parts@.subrange(0, i as int)));
            assert(next.last() == parts@[i as int]@);
        }
        if i > 0 {
            r.append(sep);
        } else {
            proof {
                assert(r@ =~= Seq::<char>::empty());
            }
        }
        r.append(parts[i].as_str());
        i = i + 1;
    }
    proof {
        assert(parts@.subrange(0, parts@.len() as int) =~= parts@);
    }
    r
}

/// Replaces each `::` in `s`, scanned from the left, with `_`.
pub fn replace_separators(s: &str) -> (r: String)
    ensures
        r@ == replace_scope_separators(s@),
{
    let n = s.unicode_len();
    let mut r = String::new();
    let mut i: usize = 0;
    proof {
        reveal_strlit("_");
        assert(s@.subrange(0, n as int) =~= s@);
    }
    while i < n
        invariant
            n == s@.len(),
            i <= n,
            r@ + replace_scope_separators(s@.subrange(i as int, n as int))
                == replace_scope_separators(s@),
            "_"@ == seq!['_'],
        decreases n - i,
    {
        let rest = Ghost(s@.subrange(i as int, n as int));
        let c = s.get_char(i);
        if c == ':' && i + 1 < n && s.get_char(i + 1) == ':' {
            proof {
                assert(rest@.subrange(2, rest@.len() as int) =~= s@.subrange(i + 2, n as int));
                assert(r@ + "_"@ + replace_scope_separators(s@.subrange(i + 2, n as int)) =~= r@
                    + replace_scope_separators(rest@));
            }
            r.append("_");
            i = i + 2;
        } else {
            let one = s.substring_char(i, i + 1);
            proof {
                assert(one@ =~= seq![c]);
                assert(rest@.subrange(1, rest@.len() as int) =~= s@.subrange(i + 1, n as int));
                assert(r@ + one@ + replace_scope_separators(s@.subrange(i + 1, n as int)) =~= r@
                    + replace_scope_separators(rest@));
            }
            r.append(one);
            i = i + 1;
        }
    }
    proof {
        assert(s@.subrange(n as int, n as int) =~= Seq::<char>::empty());
        assert(r@ + Seq::<char>::empty() =~= r@);
    }
    r
}

/// Escapes `&`, `<` and `>` as entities and turns line breaks into `<br>`.
pub fn escape_html(s: &str) -> (r: String)
    ensures
        r@ == escape_html_spec(s@),
{
    let n = s.unicode_len();
    let mut r = String::new();
    let mut i: usize = 0;
    while i < n
        invariant
            n == s@.len(),
            i <= n,
            r@ == escape_html_spec(s@.subrange(0, i as int)),
        decreases n - i,
    {
        let c = s.get_char(i);
        proof {
            assert(s@.subrange(0, i + 1).drop_last() =~= s@.subrange(0, i as int));
        }
        if c == '&' {
            r.append("&amp;");
        } else if c == '<' {
            r.append("&lt;");
        } else if c == '>' {
            r.append("&gt;");
        } else if c == '\n' {
            r.append("<br>");
        } else {
            let one = s.substring_char(i, i + 1);
            proof {
                assert(one@ =~= seq![c]);
            }
            r.append(one);
        }
        i = i + 1;
    }
    proof {
        assert(s@.subrange(0, n as int) =~= s@);
    }
    r
}

} // verus!
