//! How commands are wired to the JSON the frontend sends: a parameter is read
//! from the body member whose key is the parameter's name in camelCase (or
//! as written, under `rename_all = "snake_case"`), and a command whose
//! declared return type is a `Result` answers its `Err` values as errors.

use vstd::prelude::*;

verus! {

/// What `char::to_uppercase` yields for `c`.
pub uninterp spec fn char_upper(c: char) -> Seq<char>;

/// The characters of `snake` in camelCase, given whether the next letter
/// follows an underscore: every `_` is dropped, and the character after a
/// run of underscores is upper-cased.
pub open spec fn camel_from(snake: Seq<char>, upper_next: bool) -> Seq<char>
    decreases snake.len(),
{
    if snake.len() == 0 {
        Seq::empty()
    } else if snake[0] == '_' {
        camel_from(snake.drop_first(), true)
    } else if upper_next {
        char_upper(snake[0]) + camel_from(snake.drop_first(), false)
    } else {
        seq![snake[0]] + camel_from(snake.drop_first(), false)
    }
}

/// The camelCase form of a snake_case name.
pub open spec fn camel_case(snake: Seq<char>) -> Seq<char> {
    camel_from(snake, false)
}

/// An ASCII character upper-cased: a lowercase letter becomes its capital,
/// anything else stays as it is.
pub open spec fn ascii_upper(c: char) -> char {
    if 'a' <= c && c <= 'z' {
        ((c as u32) - 32) as char
    } else {
        c
    }
}

/// Every character of `s` is ASCII.
pub open spec fn is_ascii_text(s: Seq<char>) -> bool {
    forall|k: int| 0 <= k < s.len() ==> (#[trigger] s[k] as u32) < 128
}

/// `camel_from` on ASCII text, where upper-casing is `ascii_upper`.
pub open spec fn ascii_camel_from(snake: Seq<char>, upper_next: bool) -> Seq<char>
    decreases snake.len(),
{
    if snake.len() == 0 {
        Seq::empty()
    } else if snake[0] == '_' {
        ascii_camel_from(snake.drop_first(), true)
    } else if upper_next {
        seq![ascii_upper(snake[0])] + ascii_camel_from(snake.drop_first(), false)
    } else {
        seq![snake[0]] + ascii_camel_from(snake.drop_first(), false)
    }
}

/// The camelCase form of an ASCII snake_case name.
pub open spec fn ascii_camel(snake: Seq<char>) -> Seq<char> {
    ascii_camel_from(snake, false)
}

/// Calls `char::to_uppercase` and collects what it yields. For an ASCII
/// character the standard library documents the result: a lowercase letter
/// becomes its capital, anything else stays as it is. The result follows
/// Unicode's uppercase mappings, none of which yields `_` (LOW LINE) for
/// another character.
#[verifier::external_body]
fn upper_case(c: char) -> (r: String)
    ensures
        r@ == char_upper(c),
        (c as u32) < 128 ==> r@ == seq![ascii_upper(c)],
        c != '_' ==> !r@.contains('_'),
{
    c.to_uppercase().collect()
}

/// Calls `String::push`: appends one character.
#[verifier::external_body]
fn push_char(s: &mut String, c: char)
    ensures
        final(s)@ == old(s)@.push(c),
{
    s.push(c)
}

/// The JSON key the frontend uses for a snake_case parameter name:
/// `by_count` is read from `byCount`. For ASCII names the upper-casing is
/// the ASCII one. The key holds no `_`, so it is its own camelCase form:
/// converting a key again gives it back.
pub fn snake_to_camel(snake: &str) -> (r: String)
    ensures
        r@ == camel_case(snake@),
        is_ascii_text(snake@) ==> r@ == ascii_camel(snake@),
        !r@.contains('_'),
        camel_case(r@) == r@,
{
    let n = snake.unicode_len();
    let mut out = String::new();
    let mut upper_next = false;
    let mut i: usize = 0;
    assert(snake@.skip(0) =~= snake@);
    while i < n
        invariant
            n == snake@.len(),
            i <= n,
            out@ + camel_from(snake@.skip(i as int), upper_next) == camel_case(snake@),
            is_ascii_text(snake@) ==> out@ + ascii_camel_from(snake@.skip(i as int), upper_next)
                == ascii_camel(snake@),
            !out@.contains('_'),
        decreases n - i,
    {
        let ch = snake.get_char(i);
        let ghost rest = snake@.skip(i as int);
        assert(rest[0] == ch);
        assert(rest.drop_first() =~= snake@.skip(i + 1));
        if ch == '_' {
            upper_next = true;
        } else if upper_next {
            let up = upper_case(ch);
            let ghost before = out@;
            out.append(up.as_str());
            proof {
                lemma_concat_without_underscore(before, up@);
            }
            assert(before + (char_upper(ch) + camel_from(snake@.skip(i + 1), false)) =~= out@
                + camel_from(snake@.skip(i + 1), false));
            proof {
                if is_ascii_text(snake@) {
                    assert((ch as u32) < 128);
                    assert(before + (seq![ascii_upper(ch)] + ascii_camel_from(
                        snake@.skip(i + 1),
                        false,
                    )) =~= out@ + ascii_camel_from(snake@.skip(i + 1), false));
                }
            }
            upper_next = false;
        } else {
            let ghost before = out@;
            push_char(&mut out, ch);
            proof {
                assert(!seq![ch].contains('_')) by {
                    if seq![ch].contains('_') {
                        let k = choose|k: int| 0 <= k < 1 && seq![ch][k] == '_';
                    }
                }
                lemma_concat_without_underscore(before, seq![ch]);
                assert(out@ == before + seq![ch]);
            }
            assert(before + (seq![ch] + camel_from(snake@.skip(i + 1), false)) =~= out@
                + camel_from(snake@.skip(i + 1), false));
            assert(before + (seq![ch] + ascii_camel_from(snake@.skip(i + 1), false)) =~= out@
                + ascii_camel_from(snake@.skip(i + 1), false));
        }
        i = i + 1;
    }
    assert(snake@.skip(n as int) =~= Seq::<char>::empty());
    assert(out@ + Seq::<char>::empty() =~= out@);
    proof {
        lemma_camel_without_underscore(out@);
    }
    out
}

proof fn lemma_concat_without_underscore(a: Seq<char>, b: Seq<char>)
    requires
        !a.contains('_'),
        !b.contains('_'),
    ensures
        !(a + b).contains('_'),
{
    if (a + b).contains('_') {
        let k = choose|k: int| 0 <= k < (a + b).len() && (a + b)[k] == '_';
        if k < a.len() {
            assert(a[k] == '_');
        } else {
            assert(b[k - a.len()] == '_');
        }
    }
}

/// How a command's parameter names become the JSON keys the frontend sends
/// (`rename_all`): camelCase, the default, or snake_case, the names as
/// written.
#[derive(Debug, Clone, Copy)]
pub enum ArgumentCase {
    Camel,
    Snake,
}

/// The JSON key of parameter `name` under `case`.
pub open spec fn argument_key_of(name: Seq<char>, case: ArgumentCase) -> Seq<char> {
    match case {
        ArgumentCase::Camel => camel_case(name),
        ArgumentCase::Snake => name,
    }
}

/// The JSON key a command parameter is read from.
pub fn argument_key(name: &str, case: ArgumentCase) -> (r: String)
    ensures
        r@ == argument_key_of(name@, case),
        case is Camel ==> r@ == camel_case(name@) && !r@.contains('_'),
        case is Camel && is_ascii_text(name@) ==> r@ == ascii_camel(name@),
        case is Snake ==> r@ == name@,
{
    match case {
        ArgumentCase::Camel => snake_to_camel(name),
        ArgumentCase::Snake => name.to_owned(),
    }
}

/// Under the default convention a parameter is read from the camelCase form
/// of its name, and under `rename_all = "snake_case"` from the name as
/// written. On ASCII names the camelCase key holds no `_`: a name with an
/// underscore (`by_count`) is never its own key.
pub proof fn law_argument_keys(name: Seq<char>)
    ensures
        argument_key_of(name, ArgumentCase::Camel) == camel_case(name),
        argument_key_of(name, ArgumentCase::Snake) == name,
        !ascii_camel(name).contains('_'),
        name.contains('_') ==> ascii_camel(name) != name,
{
    lemma_ascii_camel_has_no_underscore(name, false);
}

/// What `ascii_camel_from` makes holds no `_`.
proof fn lemma_ascii_camel_has_no_underscore(snake: Seq<char>, upper_next: bool)
    ensures
        !ascii_camel_from(snake, upper_next).contains('_'),
    decreases snake.len(),
{
    if snake.len() > 0 {
        let rest = snake.drop_first();
        if snake[0] == '_' {
            lemma_ascii_camel_has_no_underscore(rest, true);
        } else {
            lemma_ascii_camel_has_no_underscore(rest, false);
            let c = if upper_next {
                ascii_upper(snake[0])
            } else {
                snake[0]
            };
            assert(c != '_');
            let tail = ascii_camel_from(rest, false);
            let whole = seq![c] + tail;
            assert(whole == ascii_camel_from(snake, upper_next));
            assert(!whole.contains('_')) by {
                if whole.contains('_') {
                    let k = choose|k: int| 0 <= k < whole.len() && whole[k] == '_';
                    if k > 0 {
                        assert(tail[k - 1] == '_');
                        assert(tail.contains('_'));
                    }
                }
            }
        }
    }
}

/// A name without underscores is its own camelCase form.
pub proof fn law_plain_names_keep_their_key(snake: Seq<char>)
    requires
        !snake.contains('_'),
    ensures
        camel_case(snake) == snake,
{
    lemma_camel_without_underscore(snake);
}

proof fn lemma_camel_without_underscore(snake: Seq<char>)
    requires
        !snake.contains('_'),
    ensures
        camel_from(snake, false) == snake,
    decreases snake.len(),
{
    if snake.len() > 0 {
        assert(snake[0] != '_') by {
            if snake[0] == '_' {
                assert(snake.contains('_'));
            }
        }
        assert(!snake.drop_first().contains('_')) by {
            if snake.drop_first().contains('_') {
                let k = choose|k: int| 0 <= k < snake.drop_first().len() && snake.drop_first()[k]
                    == '_';
                assert(snake[k + 1] == '_');
            }
        }
        lemma_camel_without_underscore(snake.drop_first());
        assert(seq![snake[0]] + snake.drop_first() =~= snake);
    }
}

/// The declared return type of a command, as far as wiring it needs: none,
/// a path (its segments' identifiers, outermost first), or some other type.
#[derive(Debug)]
pub enum ReturnType {
    Default,
    Path(Vec<String>),
    Other,
}

/// Whether a command's declared return type names `Result`: a path whose last
/// segment is `Result`. Matching is by name only, as a macro must.
pub open spec fn is_result_type(ret: ReturnType) -> bool {
    match ret {
        ReturnType::Path(segments) => segments@.len() > 0 && segments@.last()@ == "Result"@,
        _ => false,
    }
}

/// Whether a command returns a `Result`, so that its `Err` values become
/// invoke errors.
pub fn returns_result(ret: &ReturnType) -> (r: bool)
    ensures
        r == is_result_type(*ret),
{
    match ret {
        ReturnType::Path(segments) => {
            if segments.len() == 0 {
                false
            } else {
                let last = segments[segments.len() - 1].as_str();
                crate::json::str_eq(last, "Result")
            }
        },
        _ => false,
    }
}

/// The pieces of a return type's text from `t` on, the current piece being
/// `cur`: the text before any generic arguments (`<`), cut at each `::`.
pub open spec fn pieces_from(t: Seq<char>, cur: Seq<char>) -> Seq<Seq<char>>
    decreases t.len(),
{
    if t.len() == 0 || t[0] == '<' {
        seq![cur]
    } else if t.len() >= 2 && t[0] == ':' && t[1] == ':' {
        seq![cur] + pieces_from(t.skip(2), Seq::empty())
    } else {
        pieces_from(t.drop_first(), cur.push(t[0]))
    }
}

/// The path segments a return type's text names: its pieces, without the
/// empty one a leading `::` makes.
pub open spec fn type_segments(t: Seq<char>) -> Seq<Seq<char>> {
    let p = pieces_from(t, Seq::empty());
    if p.len() > 1 && p[0].len() == 0 {
        p.drop_first()
    } else {
        p
    }
}

/// A character that may stand in an identifier: an ASCII letter or digit,
/// `_`, or any non-ASCII character.
pub open spec fn ident_char(c: char) -> bool {
    ||| ('a' <= c && c <= 'z')
    ||| ('A' <= c && c <= 'Z')
    ||| ('0' <= c && c <= '9')
    ||| c == '_'
    ||| (c as u32) >= 128
}

/// `s` is a non-empty run of identifier characters.
pub open spec fn is_ident_text(s: Seq<char>) -> bool {
    s.len() > 0 && forall|k: int| 0 <= k < s.len() ==> #[trigger] ident_char(s[k])
}

/// The text names a path type: every segment is an identifier.
pub open spec fn is_path_text(t: Seq<char>) -> bool {
    forall|k: int| 0 <= k < type_segments(t).len() ==> #[trigger] is_ident_text(type_segments(t)[k])
}

/// The view of a list of strings.
pub open spec fn text_views(v: Seq<String>) -> Seq<Seq<char>> {
    v.map_values(|s: String| s@)
}

fn is_ident_str(s: &str) -> (r: bool)
    ensures
        r == is_ident_text(s@),
{
    let n = s.unicode_len();
    if n == 0 {
        return false;
    }
    let mut i: usize = 0;
    while i < n
        invariant
            n == s@.len(),
            i <= n,
            forall|k: int| 0 <= k < i ==> #[trigger] ident_char(s@[k]),
        decreases n - i,
    {
        let c = s.get_char(i);
        let ok = ('a' <= c && c <= 'z') || ('A' <= c && c <= 'Z') || ('0' <= c && c <= '9') || c
            == '_' || (c as u32) >= 128;
        if !ok {
            assert(!ident_char(s@[i as int]));
            return false;
        }
        i = i + 1;
    }
    true
}

/// The shape of a command's declared return type, from its text as the
/// `command!` macro wrote it: no text is no return type; a text whose
/// segments (before any generic arguments, cut at `::`) are all
/// identifiers is a path; anything else (a reference, a tuple, ...) is some
/// other type.
pub fn return_type_of(tokens: &str) -> (r: ReturnType)
    ensures
        tokens@.len() == 0 ==> r is Default,
        tokens@.len() > 0 && is_path_text(tokens@) ==> (r matches ReturnType::Path(segs)
            && text_views(segs@) == type_segments(tokens@)),
        tokens@.len() > 0 && !is_path_text(tokens@) ==> r is Other,
{
    let n = tokens.unicode_len();
    if n == 0 {
        return ReturnType::Default;
    }
    let mut parts: Vec<String> = Vec::new();
    let mut cur = String::new();
    let mut i: usize = 0;
    assert(tokens@.skip(0) =~= tokens@);
    assert(text_views(parts@) =~= Seq::<Seq<char>>::empty());
    assert(Seq::<Seq<char>>::empty() + pieces_from(tokens@, cur@) =~= pieces_from(tokens@, cur@));
    while i < n
        invariant
            n == tokens@.len(),
            i <= n,
            text_views(parts@) + pieces_from(tokens@.skip(i as int), cur@) == pieces_from(
                tokens@,
                Seq::empty(),
            ),
        decreases n - i,
    {
        let c = tokens.get_char(i);
        let ghost rest = tokens@.skip(i as int);
        assert(rest[0] == c);
        if c == '<' {
            assert(tokens@.skip(n as int) =~= Seq::<char>::empty());
            i = n;
        } else if c == ':' && i + 1 < n && tokens.get_char(i + 1) == ':' {
            assert(rest[1] == tokens@[i + 1]);
            assert(rest.skip(2) =~= tokens@.skip(i + 2));
            let ghost before = text_views(parts@);
            let piece = cur;
            cur = String::new();
            parts.push(piece);
            assert(text_views(parts@) =~= before.push(piece@));
            assert(before + (seq![piece@] + pieces_from(tokens@.skip(i + 2), Seq::empty()))
                =~= before.push(piece@) + pieces_from(tokens@.skip(i + 2), cur@));
            i = i + 2;
        } else {
            assert(rest.drop_first() =~= tokens@.skip(i + 1));
            push_char(&mut cur, c);
            i = i + 1;
        }
    }
    assert(tokens@.skip(n as int) =~= Seq::<char>::empty());
    let ghost before = text_views(parts@);
    let last = cur;
    parts.push(last);
    assert(text_views(parts@) =~= before.push(last@));
    assert(text_views(parts@) =~= pieces_from(tokens@, Seq::empty()));
    let start: usize = if parts.len() > 1 && parts[0].as_str().unicode_len() == 0 {
        1
    } else {
        0
    };
    let ghost all = text_views(parts@);
    assert(all.skip(start as int) == type_segments(tokens@)) by {
        if start == 1 {
            assert(all.skip(1) =~= all.drop_first());
        } else {
            assert(all.skip(0) =~= all);
        }
    }
    let mut segs: Vec<String> = Vec::new();
    let mut j: usize = start;
    let mut path = true;
    while j < parts.len()
        invariant
            start <= j <= parts.len(),
            all == text_views(parts@),
            text_views(segs@) == all.subrange(start as int, j as int),
            path == (forall|k: int| start <= k < j ==> #[trigger] is_ident_text(all[k])),
        decreases parts.len() - j,
    {
        let ok = is_ident_str(parts[j].as_str());
        let ghost before = text_views(segs@);
        segs.push(parts[j].clone());
        assert(text_views(segs@) =~= all.subrange(start as int, j + 1)) by {
            assert(text_views(segs@) =~= before.push(parts@[j as int]@));
        }
        proof {
            if path && ok {
                assert forall|k: int| start <= k < j + 1 implies #[trigger] is_ident_text(all[k]) by {
                    if k == j {
                        assert(all[k] == parts@[j as int]@);
                    }
                }
            }
            if !ok {
                assert(all[j as int] == parts@[j as int]@);
            }
        }
        path = path && ok;
        j = j + 1;
    }
    assert(all.subrange(start as int, parts@.len() as int) =~= all.skip(start as int));
    proof {
        let ts = type_segments(tokens@);
        if path {
            assert forall|k: int| 0 <= k < ts.len() implies #[trigger] is_ident_text(ts[k]) by {
                assert(ts[k] == all[k + start]);
            }
        } else {
            let k = choose|k: int| start <= k < parts@.len() && !#[trigger] is_ident_text(all[k]);
            assert(ts[k - start] == all[k]);
        }
    }
    if path {
        ReturnType::Path(segs)
    } else {
        ReturnType::Other
    }
}

} // verus!
