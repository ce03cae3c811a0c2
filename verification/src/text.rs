//! Text rules of the frontend: matching, shortening and building the texts
//! and addresses it shows or connects to.
use vstd::prelude::*;
use vstd::string::*;

verus! {

/// Whether `pat` occurs in `text` starting at position `i`.
pub open spec fn occurs_at(text: Seq<char>, pat: Seq<char>, i: int) -> bool {
    0 <= i && i + pat.len() <= text.len() && text.subrange(i, i + pat.len()) == pat
}

/// Whether `pat` occurs somewhere in `text`.
pub open spec fn contains_text(text: Seq<char>, pat: Seq<char>) -> bool {
    exists|i: int| occurs_at(text, pat, i)
}

/// Whether `a` and `b` hold the same characters.
pub fn text_equals(a: &str, b: &str) -> (r: bool)
    ensures
        r == (a@ == b@),
{
    let n = a.unicode_len();
    if n != b.unicode_len() {
        return false;
    }
    let mut i: usize = 0;
    while i < n
        invariant
            n == a@.len(),
            n == b@.len(),
            0 <= i <= n,
            forall|j: int| 0 <= j < i ==> a@[j] == b@[j],
        decreases n - i,
    {
        if a.get_char(i) != b.get_char(i) {
            return false;
        }
        i = i + 1;
    }
    assert(a@ =~= b@);
    true
}

/// Whether `pat` occurs in `text` at position `i`.
pub fn occurs_at_exec(text: &str, pat: &str, i: usize) -> (r: bool)
    ensures
        r == occurs_at(text@, pat@, i as int),
{
    let n = text.unicode_len();
    let m = pat.unicode_len();
    if i > n || m > n - i {
        return false;
    }
    let mut k: usize = 0;
    while k < m
        invariant
            n == text@.len(),
            m == pat@.len(),
            i + m <= n,
            0 <= k <= m,
            forall|j: int| 0 <= j < k ==> text@[i + j] == pat@[j],
        decreases m - k,
    {
        if text.get_char(i + k) != pat.get_char(k) {
            assert(text@.subrange(i as int, i + m)[k as int] != pat@[k as int]);
            return false;
        }
        k = k + 1;
    }
    assert(text@.subrange(i as int, i + m) =~= pat@);
    true
}

/// Whether `text` starts with `prefix`.
pub fn starts_with(text: &str, prefix: &str) -> (r: bool)
    ensures
        r == occurs_at(text@, prefix@, 0),
{
    occurs_at_exec(text, prefix, 0)
}

/// Whether `pat` occurs somewhere in `text`.
pub fn contains(text: &str, pat: &str) -> (r: bool)
    ensures
        r == contains_text(text@, pat@),
{
    let n = text.unicode_len();
    let mut i: usize = 0;
    while i < n
        invariant
            n == text@.len(),
            0 <= i <= n,
            forall|j: int| 0 <= j < i ==> !occurs_at(text@, pat@, j),
        decreases n - i,
    {
        if occurs_at_exec(text, pat, i) {
            return true;
        }
        i = i + 1;
    }
    if occurs_at_exec(text, pat, n) {
        return true;
    }
    assert forall|j: int| !occurs_at(text@, pat@, j) by {
        if 0 <= j < n {
        }
    }
    false
}

/// The part of a JSON error message before its first " at " (which starts
/// the position of the error), or the whole message if it has none.
pub fn clean_json_error(text: &str) -> (r: &str)
    ensures
        r@.len() <= text@.len(),
        r@ == text@.take(r@.len() as int),
        forall|j: int| 0 <= j < r@.len() ==> !occurs_at(text@, " at "@, j),
        r@.len() < text@.len() ==> occurs_at(text@, " at "@, r@.len() as int),
{
    let n = text.unicode_len();
    let mut i: usize = 0;
    while i < n
        invariant
            n == text@.len(),
            0 <= i <= n,
            forall|j: int| 0 <= j < i ==> !occurs_at(text@, " at "@, j),
        decreases n - i,
    {
        if occurs_at_exec(text, " at ", i) {
            return text.substring_char(0, i);
        }
        i = i + 1;
    }
    text.substring_char(0, n)
}

/// The position of the last `.` of a text, or -1 if it has none.
pub open spec fn last_dot(s: Seq<char>) -> int
    decreases s.len(),
{
    if s.len() == 0 {
        -1
    } else if s.last() == '.' {
        s.len() - 1
    } else {
        last_dot(s.drop_last())
    }
}

/// A file name without its extension: the part before its last `.`, or the
/// whole name if it has none.
pub open spec fn file_stem(s: Seq<char>) -> Seq<char> {
    if last_dot(s) < 0 {
        s
    } else {
        s.take(last_dot(s))
    }
}

/// Where no `.` stands from position `k` on, the last `.` of a text is that
/// of its first `k` characters.
proof fn lemma_last_dot_prefix(s: Seq<char>, k: int)
    requires
        0 <= k <= s.len(),
        forall|j: int| k <= j < s.len() ==> s[j] != '.',
    ensures
        last_dot(s) == last_dot(s.take(k)),
    decreases s.len() - k,
{
    if k < s.len() {
        lemma_last_dot_prefix(s.drop_last(), k);
        assert(s.drop_last().take(k) =~= s.take(k));
    } else {
        assert(s.take(k) =~= s);
    }
}

/// A file name without its extension: the part before its last `.`, or the
/// whole name if it has none.
pub fn strip_extension(file_name: &str) -> (r: &str)
    ensures
        r@ == file_stem(file_name@),
        (exists|d: int| 0 <= d < file_name@.len() && file_name@[d] == '.') ==> {
            &&& r@.len() < file_name@.len()
            &&& file_name@[r@.len() as int] == '.'
            &&& r@ == file_name@.take(r@.len() as int)
            &&& forall|j: int| r@.len() < j < file_name@.len() ==> file_name@[j] != '.'
        },
        !(exists|d: int| 0 <= d < file_name@.len() && file_name@[d] == '.') ==> r@ == file_name@,
{
    let n = file_name.unicode_len();
    let mut i: usize = n;
    while i > 0
        invariant
            n == file_name@.len(),
            0 <= i <= n,
            forall|j: int| i <= j < n ==> file_name@[j] != '.',
        decreases i,
    {
        if file_name.get_char(i - 1) == '.' {
            proof {
                lemma_last_dot_prefix(file_name@, i as int);
                assert(file_name@.take(i as int).drop_last() =~= file_name@.take(i - 1));
            }
            return file_name.substring_char(0, i - 1);
        }
        i = i - 1;
    }
    let r = file_name.substring_char(0, n);
    proof {
        lemma_last_dot_prefix(file_name@, 0);
    }
    assert(r@ =~= file_name@);
    r
}

/// Whether a source is offered: none is ignored, or it does not contain the
/// ignored text.
pub open spec fn offered(ignore: Option<Seq<char>>) -> spec_fn(String) -> bool {
    |s: String|
        match ignore {
            Some(pat) => !contains_text(s@, pat),
            None => true,
        }
}

/// The image sources offered for selection: all available ones, except those
/// that contain the ignored text, in their order.
pub fn offered_sources(available: Vec<String>, ignore: Option<&str>) -> (r: Vec<String>)
    ensures
        r@ == available@.filter(
            offered(
                match ignore {
                    Some(p) => Some(p@),
                    None => None,
                },
            ),
        ),
{
    let ghost pred = offered(
        match ignore {
            Some(p) => Some(p@),
            None => None,
        },
    );
    let ghost initial = available@;
    let mut rest = available;
    let mut kept: Vec<String> = Vec::new();
    proof {
        assert(initial.take(0) =~= Seq::<String>::empty());
        reveal_with_fuel(Seq::<_>::filter, 1);
    }
    while rest.len() > 0
        invariant
            rest@.len() <= initial.len(),
            rest@ == initial.skip(initial.len() - rest@.len()),
            kept@ == initial.take(initial.len() - rest@.len()).filter(pred),
            pred == offered(
                match ignore {
                    Some(p) => Some(p@),
                    None => None,
                },
            ),
        decreases rest@.len(),
    {
        let ghost done = initial.len() - rest@.len();
        let source = rest.remove(0);
        proof {
            assert(initial[done] == source);
            assert(initial.take(done + 1).drop_last() =~= initial.take(done));
            assert(initial.take(done + 1).last() == source);
            assert(rest@ =~= initial.skip(done + 1));
            reveal_with_fuel(Seq::<_>::filter, 1);
        }
        let keep = match ignore {
            Some(pat) => !contains(source.as_str(), pat),
            None => true,
        };
        if keep {
            kept.push(source);
        }
    }
    proof {
        assert(initial.take(initial.len() as int) =~= initial);
    }
    kept
}

/// The websocket scheme that goes with a page protocol: `wss:` for
/// `https:`, `ws:` otherwise.
pub open spec fn ws_scheme(protocol: Seq<char>) -> Seq<char> {
    if protocol == "https:"@ {
        "wss:"@
    } else {
        "ws:"@
    }
}

/// The address of the recipe change stream of the server serving the page.
pub fn recipe_stream_url(protocol: &str, host: &str) -> (r: String)
    ensures
        r@ == ws_scheme(protocol@) + "//"@ + host@ + "/api/recipe/stream"@,
{
    let mut url = if text_equals(protocol, "https:") {
        String::from_str("wss:")
    } else {
        String::from_str("ws:")
    };
    url.append("//");
    url.append(host);
    url.append("/api/recipe/stream");
    url
}

/// The base of the websocket addresses of the backend on `host`.
pub fn ws_url_base(host: &str) -> (r: String)
    ensures
        r@ == "ws://"@ + host@ + ":4123"@,
{
    let mut url = String::from_str("ws://");
    url.append(host);
    url.append(":4123");
    url
}

/// The address of the raw image stream of a device.
pub fn device_image_url(base: &str, device_id: &str) -> (r: String)
    ensures
        r@ == base@ + "/api/image/subscribe?format=Raw&device_id="@ + device_id@,
{
    let mut url = String::from_str(base);
    url.append("/api/image/subscribe?format=Raw&device_id=");
    url.append(device_id);
    url
}

/// The address of the recipe import socket.
pub fn recipe_import_url(base: &str) -> (r: String)
    ensures
        r@ == base@ + "/api/recipe/import"@,
{
    let mut url = String::from_str(base);
    url.append("/api/recipe/import");
    url
}

/// The character of a decimal digit.
pub open spec fn digit_char(d: int) -> char {
    (48 + d) as char
}

/// The decimal text of a number, without leading zeros.
pub open spec fn decimal(n: nat) -> Seq<char>
    decreases n,
{
    if n < 10 {
        seq![digit_char(n as int)]
    } else {
        decimal(n / 10).push(digit_char((n % 10) as int))
    }
}

/// The text of one decimal digit.
fn digit_text(d: u32) -> (r: &'static str)
    requires
        d < 10,
    ensures
        r@ == seq![digit_char(d as int)],
{
    proof {
        reveal_strlit("0");
        reveal_strlit("1");
        reveal_strlit("2");
        reveal_strlit("3");
        reveal_strlit("4");
        reveal_strlit("5");
        reveal_strlit("6");
        reveal_strlit("7");
        reveal_strlit("8");
        reveal_strlit("9");
    }
    match d {
        0 => "0",
        1 => "1",
        2 => "2",
        3 => "3",
        4 => "4",
        5 => "5",
        6 => "6",
        7 => "7",
        8 => "8",
        _ => "9",
    }
}

/// Appends the decimal text of `n`.
pub fn append_decimal(text: &mut String, n: u32)
    ensures
        final(text)@ == old(text)@ + decimal(n as nat),
    decreases n,
{
    if n >= 10 {
        append_decimal(text, n / 10);
    }
    text.append(digit_text(n % 10));
    proof {
        if n >= 10 {
            assert(decimal(n as nat) == decimal((n / 10) as nat).push(digit_char((n % 10) as int)));
        }
    }
}

} // verus!
