//! Decisions for the embedded browser control: which links leave for the
//! system browser, which context-menu entries are removed, and which
//! permission requests are granted.

use vstd::prelude::*;
use crate::text::{ascii_lowercase, has_prefix, owned, same_text, starts_with, to_ascii_lowercase};

verus! {

/// Ends the authority (host and port) part of a web address; as browsers
/// do for `http` and `https`, a backslash counts as a slash.
pub open spec fn ends_authority(c: char) -> bool {
    c == '/' || c == '\\' || c == '?' || c == '#'
}

/// The leading part of `rest` up to the first `/`, `\`, `?` or `#`.
pub open spec fn authority_of(rest: Seq<char>) -> Seq<char>
    decreases rest.len(),
{
    if rest.len() > 0 && !ends_authority(rest[0]) {
        seq![rest[0]] + authority_of(rest.drop_first())
    } else {
        seq![]
    }
}

/// What follows the last `@` in `a` (the user information before it is
/// not part of the host); all of `a` when there is no `@`.
pub open spec fn after_last_at(a: Seq<char>) -> Seq<char>
    decreases a.len(),
{
    if a.len() == 0 {
        a
    } else if a.last() == '@' {
        seq![]
    } else {
        after_last_at(a.drop_last()).push(a.last())
    }
}

/// The leading part of `h` up to the first `:` (which starts the port).
pub open spec fn before_port(h: Seq<char>) -> Seq<char>
    decreases h.len(),
{
    if h.len() > 0 && h[0] != ':' {
        seq![h[0]] + before_port(h.drop_first())
    } else {
        seq![]
    }
}

/// The leading part of `h` up to and including the first `]` (which closes
/// a bracketed IPv6 address); all of `h` when there is no `]`.
pub open spec fn through_bracket(h: Seq<char>) -> Seq<char>
    decreases h.len(),
{
    if h.len() == 0 {
        seq![]
    } else if h[0] == ']' {
        seq![']']
    } else {
        seq![h[0]] + through_bracket(h.drop_first())
    }
}

/// The host at the start of `h` (host and port): a bracketed IPv6 address
/// with its brackets, or else everything before the port.
pub open spec fn host_part(h: Seq<char>) -> Seq<char> {
    if h.len() > 0 && h[0] == '[' {
        through_bracket(h)
    } else {
        before_port(h)
    }
}

/// The host named by an `http://` or `https://` address: the authority
/// after the scheme, without user information and port.
pub open spec fn url_host(uri: Seq<char>) -> Seq<char> {
    let rest = if has_prefix(uri, "http://"@) {
        uri.skip(7)
    } else {
        uri.skip(8)
    };
    host_part(after_last_at(authority_of(rest)))
}

/// The host is the local server's own: `localhost` (in any letter case) or
/// `127.0.0.1`.
pub open spec fn local_host(host: Seq<char>) -> bool {
    ascii_lowercase(host) == "localhost"@ || host == "127.0.0.1"@
}

/// An outbound web address: `http://` or `https://`, with a host that is
/// not the local server's own.
pub open spec fn external_http(uri: Seq<char>) -> bool {
    &&& (has_prefix(uri, "http://"@) || has_prefix(uri, "https://"@))
    &&& !local_host(url_host(uri))
}

proof fn lemma_authority_of(t: Seq<char>, m: int)
    requires
        0 <= m <= t.len(),
        forall|j: int| 0 <= j < m ==> !ends_authority(#[trigger] t[j]),
        m == t.len() || ends_authority(t[m]),
    ensures
        authority_of(t) == t.take(m),
    decreases m,
{
    if m == 0 {
        assert(t.take(0) =~= Seq::<char>::empty());
    } else {
        let u = t.drop_first();
        assert forall|j: int| 0 <= j < m - 1 implies !ends_authority(#[trigger] u[j]) by {
            assert(u[j] == t[j + 1]);
        }
        lemma_authority_of(u, m - 1);
        assert(seq![t[0]] + u.take(m - 1) =~= t.take(m));
    }
}

proof fn lemma_before_port(t: Seq<char>, m: int)
    requires
        0 <= m <= t.len(),
        forall|j: int| 0 <= j < m ==> #[trigger] t[j] != ':',
        m == t.len() || t[m] == ':',
    ensures
        before_port(t) == t.take(m),
    decreases m,
{
    if m == 0 {
        assert(t.take(0) =~= Seq::<char>::empty());
    } else {
        let u = t.drop_first();
        assert forall|j: int| 0 <= j < m - 1 implies #[trigger] u[j] != ':' by {
            assert(u[j] == t[j + 1]);
        }
        lemma_before_port(u, m - 1);
        assert(seq![t[0]] + u.take(m - 1) =~= t.take(m));
    }
}

proof fn lemma_through_bracket(t: Seq<char>, m: int)
    requires
        0 <= m <= t.len(),
        forall|j: int| 0 <= j < m ==> #[trigger] t[j] != ']',
        m == t.len() || t[m] == ']',
    ensures
        through_bracket(t) == (if m == t.len() {
            t
        } else {
            t.take(m + 1)
        }),
    decreases m,
{
    if m == 0 {
        if t.len() == 0 {
            assert(t =~= Seq::<char>::empty());
        } else {
            assert(t.take(1) =~= seq![']']);
        }
    } else {
        let u = t.drop_first();
        assert forall|j: int| 0 <= j < m - 1 implies #[trigger] u[j] != ']' by {
            assert(u[j] == t[j + 1]);
        }
        if m < t.len() {
            assert(u[m - 1] == t[m]);
        }
        lemma_through_bracket(u, m - 1);
        if m == t.len() {
            assert(seq![t[0]] + u =~= t);
        } else {
            assert(seq![t[0]] + u.take(m) =~= t.take(m + 1));
        }
    }
}

proof fn lemma_after_last_at(a: Seq<char>, p: int)
    requires
        0 <= p <= a.len(),
        forall|j: int| p <= j < a.len() ==> #[trigger] a[j] != '@',
        p == 0 || a[p - 1] == '@',
    ensures
        after_last_at(a) == a.skip(p),
    decreases a.len(),
{
    if a.len() == p {
        assert(a.skip(p) =~= Seq::<char>::empty());
        if p == 0 {
            assert(a =~= Seq::<char>::empty());
        }
    } else {
        let b = a.drop_last();
        assert(a.last() == a[a.len() - 1]);
        assert forall|j: int| p <= j < b.len() implies #[trigger] b[j] != '@' by {
            assert(b[j] == a[j]);
        }
        if p > 0 {
            assert(b[p - 1] == a[p - 1]);
        }
        lemma_after_last_at(b, p);
        assert(b.skip(p).push(a.last()) =~= a.skip(p));
    }
}

/// Where the host that starts at `at` ends, in the host and port that run
/// from `at` to `end`.
fn host_end(uri: &str, at: usize, end: usize) -> (stop: usize)
    requires
        at <= end <= uri@.len(),
    ensures
        at <= stop <= end,
        uri@.subrange(at as int, stop as int) == host_part(uri@.subrange(at as int, end as int)),
{
    let n = uri.unicode_len();
    let mut stop: usize = at;
    if at < end && uri.get_char(at) == '[' {
        let mut close: usize = at;
        while close < end && uri.get_char(close) != ']'
            invariant
                n == uri@.len(),
                at <= close <= end <= n,
                forall|k: int| at <= k < close ==> #[trigger] uri@[k] != ']',
            decreases end - close,
        {
            close = close + 1;
        }
        stop = if close < end {
            close + 1
        } else {
            end
        };
        proof {
            let h = uri@.subrange(at as int, end as int);
            let q = close - at;
            assert(h[0] == uri@[at as int]);
            assert forall|i: int| 0 <= i < q implies #[trigger] h[i] != ']' by {
                assert(h[i] == uri@[i + at]);
            }
            if close < end {
                assert(h[q as int] == uri@[close as int]);
                assert(h.take(q + 1) =~= uri@.subrange(at as int, stop as int));
            } else {
                assert(h =~= uri@.subrange(at as int, stop as int));
            }
            lemma_through_bracket(h, q as int);
        }
    } else {
        let mut colon: usize = at;
        while colon < end && uri.get_char(colon) != ':'
            invariant
                n == uri@.len(),
                at <= colon <= end <= n,
                forall|k: int| at <= k < colon ==> #[trigger] uri@[k] != ':',
            decreases end - colon,
        {
            colon = colon + 1;
        }
        stop = colon;
        proof {
            let h = uri@.subrange(at as int, end as int);
            let q = colon - at;
            if at < end {
                assert(h[0] == uri@[at as int]);
            }
            assert forall|i: int| 0 <= i < q implies #[trigger] h[i] != ':' by {
                assert(h[i] == uri@[i + at]);
            }
            if colon < end {
                assert(h[q as int] == uri@[colon as int]);
            }
            lemma_before_port(h, q as int);
            assert(h.take(q as int) =~= uri@.subrange(at as int, colon as int));
        }
    }
    stop
}

/// The host named by the `http://` or `https://` address `uri`.
fn url_host_exec(uri: &str) -> (r: String)
    requires
        has_prefix(uri@, "http://"@) || has_prefix(uri@, "https://"@),
    ensures
        r@ == url_host(uri@),
{
    proof {
        reveal_strlit("http://");
        reveal_strlit("https://");
    }
    let n = uri.unicode_len();
    let start: usize = if starts_with(uri, "http://") {
        7
    } else {
        8
    };
    let mut end: usize = start;
    while end < n && !is_authority_end(uri.get_char(end))
        invariant
            n == uri@.len(),
            start <= end <= n,
            forall|j: int| start <= j < end ==> !ends_authority(#[trigger] uri@[j]),
        decreases n - end,
    {
        end = end + 1;
    }
    let mut at: usize = start;
    let mut j: usize = start;
    while j < end
        invariant
            n == uri@.len(),
            start <= at <= j <= end <= n,
            forall|k: int| at <= k < j ==> #[trigger] uri@[k] != '@',
            at == start || uri@[at - 1] == '@',
        decreases end - j,
    {
        if uri.get_char(j) == '@' {
            at = j + 1;
        }
        j = j + 1;
    }
    let stop = host_end(uri, at, end);
    proof {
        let rest = uri@.skip(start as int);
        assert(rest == (if has_prefix(uri@, "http://"@) {
            uri@.skip(7)
        } else {
            uri@.skip(8)
        }));
        let m = end - start;
        assert forall|i: int| 0 <= i < m implies !ends_authority(#[trigger] rest[i]) by {
            assert(rest[i] == uri@[i + start]);
        }
        if end < n {
            assert(rest[m as int] == uri@[end as int]);
        }
        lemma_authority_of(rest, m as int);
        let a = rest.take(m as int);
        let p = at - start;
        assert forall|i: int| p <= i < a.len() implies #[trigger] a[i] != '@' by {
            assert(a[i] == uri@[i + start]);
        }
        if p > 0 {
            assert(a[p - 1] == uri@[at - 1]);
        }
        lemma_after_last_at(a, p as int);
        assert(a.skip(p as int) =~= uri@.subrange(at as int, end as int));
    }
    owned(uri.substring_char(at, stop))
}

fn is_authority_end(c: char) -> (r: bool)
    ensures
        r == ends_authority(c),
{
    c == '/' || c == '\\' || c == '?' || c == '#'
}

/// Whether `uri` is an outbound web address, which goes to the system
/// browser rather than the embedded one: `http://` or `https://` with a
/// host other than `localhost` and `127.0.0.1`.
pub fn is_external_http(uri: &str) -> (r: bool)
    ensures
        r == external_http(uri@),
{
    if !(starts_with(uri, "http://") || starts_with(uri, "https://")) {
        return false;
    }
    let host = url_host_exec(uri);
    let lower = to_ascii_lowercase(host.as_str());
    let local = same_text(lower.as_str(), "localhost") || same_text(host.as_str(), "127.0.0.1");
    !local
}

/// What to do with a request to open a new window.
#[derive(Debug, Clone, Copy, PartialEq, Eq, Structural)]
pub struct NewWindowDecision {
    /// Open the address in the system browser.
    pub open_externally: bool,
    /// Mark the request handled, so the control opens no window of its own.
    pub handled: bool,
}

/// A request for a new window (`target="_blank"`, `window.open`): an
/// outbound address goes to the system browser; either way the request is
/// marked handled.
pub fn new_window_decision(uri: &str) -> (r: NewWindowDecision)
    ensures
        r.open_externally == external_http(uri@),
        r.handled,
{
    NewWindowDecision { open_externally: is_external_http(uri), handled: true }
}

/// What to do when a top-level navigation starts.
#[derive(Debug, Clone, Copy, PartialEq, Eq, Structural)]
pub struct NavigationDecision {
    /// Open the address in the system browser.
    pub open_externally: bool,
    /// Cancel the navigation in the embedded control.
    pub cancel: bool,
}

/// A top-level navigation: an outbound address goes to the system browser
/// and the embedded control stays where it is; any other navigation goes
/// ahead.
pub fn navigation_decision(uri: &str) -> (r: NavigationDecision)
    ensures
        r.open_externally == external_http(uri@),
        r.cancel == r.open_externally,
{
    let external = is_external_http(uri);
    NavigationDecision { open_externally: external, cancel: external }
}

/// Law: the local server's own pages never leave the embedded control,
/// whatever follows the host in the address.
pub proof fn law_local_pages_stay(uri: Seq<char>)
    requires
        local_host(url_host(uri)),
    ensures
        !external_http(uri),
{
}

/// Law: every `http://` or `https://` address whose host is not the local
/// server's own leaves for the system browser, whatever its path or query
/// names.
pub proof fn law_outbound_links_leave(uri: Seq<char>)
    requires
        has_prefix(uri, "http://"@) || has_prefix(uri, "https://"@),
        !local_host(url_host(uri)),
    ensures
        external_http(uri),
{
}

/// Law: what follows the host and port never matters. Whether an
/// `http://` or `https://` address leaves for the system browser is decided
/// before its first `/`, `\\`, `?` or `#`: a path, query or fragment that
/// names `localhost` (or anything else) changes nothing.
pub proof fn law_path_never_matters(uri: Seq<char>, rest: Seq<char>)
    requires
        has_prefix(uri, "http://"@) || has_prefix(uri, "https://"@),
        forall|i: int|
            (if has_prefix(uri, "http://"@) {
                7int
            } else {
                8int
            }) <= i < uri.len() ==> !ends_authority(#[trigger] uri[i]),
        rest.len() > 0 ==> ends_authority(rest[0]),
    ensures
        external_http(uri + rest) == external_http(uri),
{
    reveal_strlit("http://");
    reveal_strlit("https://");
    let all = uri + rest;
    assert(all.take(7) =~= uri.take(7));
    if uri.len() >= 8 {
        assert(all.take(8) =~= uri.take(8));
    }
    let k: int = if has_prefix(uri, "http://"@) {
        7
    } else {
        8
    };
    assert(has_prefix(all, "http://"@) == has_prefix(uri, "http://"@));
    let t = uri.skip(k);
    let tt = all.skip(k);
    assert(tt =~= t + rest);
    assert forall|j: int| 0 <= j < t.len() implies !ends_authority(#[trigger] t[j]) by {
        assert(t[j] == uri[j + k]);
    }
    assert forall|j: int| 0 <= j < t.len() implies !ends_authority(#[trigger] tt[j]) by {
        assert(tt[j] == t[j]);
    }
    if rest.len() > 0 {
        assert(tt[t.len() as int] == rest[0]);
    }
    lemma_authority_of(t, t.len() as int);
    lemma_authority_of(tt, t.len() as int);
    assert(t.take(t.len() as int) =~= t);
    assert(tt.take(t.len() as int) =~= t);
}

/// Law: addresses of the local server stay in the embedded control:
/// `http://` or `https://` followed by `localhost` or `127.0.0.1`, then
/// nothing or a path, query or fragment.
pub proof fn law_local_server_addresses_stay(rest: Seq<char>)
    requires
        rest.len() > 0 ==> ends_authority(rest[0]),
    ensures
        !external_http("http://localhost"@ + rest),
        !external_http("https://localhost"@ + rest),
        !external_http("http://127.0.0.1"@ + rest),
        !external_http("https://127.0.0.1"@ + rest),
{
    reveal_strlit("http://localhost");
    reveal_strlit("https://localhost");
    reveal_strlit("http://127.0.0.1");
    reveal_strlit("https://127.0.0.1");
    reveal_strlit("http://");
    reveal_strlit("https://");
    reveal_strlit("localhost");
    reveal_strlit("127.0.0.1");
    let a = "http://localhost"@;
    let b = "https://localhost"@;
    let c = "http://127.0.0.1"@;
    let d = "https://127.0.0.1"@;
    assert(a.take(7) =~= "http://"@);
    assert(b.take(8) =~= "https://"@);
    assert(c.take(7) =~= "http://"@);
    assert(d.take(8) =~= "https://"@);
    assert(b.take(7)[4] != "http://"@[4]);
    assert(d.take(7)[4] != "http://"@[4]);
    law_path_never_matters(a, rest);
    law_path_never_matters(b, rest);
    law_path_never_matters(c, rest);
    law_path_never_matters(d, rest);
    assert(a.skip(7) =~= "localhost"@);
    assert(b.skip(8) =~= "localhost"@);
    assert(c.skip(7) =~= "127.0.0.1"@);
    assert(d.skip(8) =~= "127.0.0.1"@);
    lemma_host_of_plain("localhost"@);
    lemma_host_of_plain("127.0.0.1"@);
    assert(ascii_lowercase("localhost"@) =~= "localhost"@);
}

/// A host with no `/`, `\\`, `?`, `#`, `@`, `:` or `[` in it is its own host
/// part.
proof fn lemma_host_of_plain(h: Seq<char>)
    requires
        forall|i: int|
            0 <= i < h.len() ==> !ends_authority(#[trigger] h[i]) && h[i] != '@' && h[i] != ':'
                && h[i] != '[',
    ensures
        host_part(after_last_at(authority_of(h))) == h,
{
    lemma_authority_of(h, h.len() as int);
    assert(h.take(h.len() as int) =~= h);
    lemma_after_last_at(h, 0);
    assert(h.skip(0) =~= h);
    lemma_before_port(h, h.len() as int);
}

// ---------------------------------------------------------------------------
// The context menu.

/// The context-menu entries that are removed: the navigation entries, which
/// lead to a dead end, and reload and inspect.
pub open spec fn blocked_menu_item(name: Seq<char>) -> bool {
    name == "back"@ || name == "forward"@ || name == "reload"@ || name == "inspectElement"@
}

/// Whether the context-menu entry with this name is removed.
pub fn is_blocked_menu_item(name: &str) -> (r: bool)
    ensures
        r == blocked_menu_item(name@),
{
    same_text(name, "back") || same_text(name, "forward") || same_text(name, "reload")
        || same_text(name, "inspectElement")
}

/// The entries that are kept, in their order.
pub open spec fn kept_items(items: Seq<String>) -> Seq<String> {
    items.filter(|n: String| !blocked_menu_item(n@))
}

/// The positions of the blocked entries among the first `i` entries of
/// `items`, from the back to the front.
pub open spec fn removals_below(items: Seq<String>, i: int) -> Seq<int>
    decreases i,
{
    if i <= 0 {
        seq![]
    } else if blocked_menu_item(items[i - 1]@) {
        seq![i - 1] + removals_below(items, i - 1)
    } else {
        removals_below(items, i - 1)
    }
}

/// `items` after removing the entry at each of `positions`, in that order;
/// each removal shifts the entries after it one place to the front.
pub open spec fn apply_removals(items: Seq<String>, positions: Seq<int>) -> Seq<String>
    decreases positions.len(),
{
    if positions.len() == 0 {
        items
    } else {
        apply_removals(items.remove(positions[0]), positions.drop_first())
    }
}

/// The positions at which to remove entries from a context menu with the
/// entries `items`: those of the blocked entries, from the back to the
/// front, so that each removal leaves the positions still to be removed in
/// place.
pub fn context_menu_removals(items: &[String]) -> (r: Vec<usize>)
    ensures
        r@.map_values(|k: usize| k as int) == removals_below(items@, items@.len() as int),
{
    let mut r: Vec<usize> = Vec::new();
    let mut i: usize = 0;
    while i < items.len()
        invariant
            i <= items@.len(),
            r@.map_values(|k: usize| k as int) == removals_below(items@, i as int),
        decreases items.len() - i,
    {
        if is_blocked_menu_item(items[i].as_str()) {
            let ghost before = r@;
            r.insert(0, i);
            assert(r@.map_values(|k: usize| k as int) =~= seq![i as int] + before.map_values(
                |k: usize| k as int,
            ));
        }
        i = i + 1;
    }
    r
}

proof fn lemma_removals_depend_on_prefix(s: Seq<String>, t: Seq<String>, i: int)
    requires
        0 <= i <= s.len(),
        i <= t.len(),
        forall|j: int| 0 <= j < i ==> s[j] == t[j],
    ensures
        removals_below(s, i) == removals_below(t, i),
    decreases i,
{
    if i > 0 {
        lemma_removals_depend_on_prefix(s, t, i - 1);
    }
}

proof fn lemma_apply_removals_below(s: Seq<String>, i: int)
    requires
        0 <= i <= s.len(),
    ensures
        apply_removals(s, removals_below(s, i)) == kept_items(s.take(i)) + s.skip(i),
    decreases i,
{
    reveal(Seq::filter);
    if i == 0 {
        assert(s.take(0).filter(|n: String| !blocked_menu_item(n@)) =~= Seq::<String>::empty());
        assert(s.skip(0) =~= s);
        assert(Seq::<String>::empty() + s =~= s);
    } else {
        let x = s[i - 1];
        assert(s.take(i).drop_last() =~= s.take(i - 1));
        assert(s.take(i).last() == x);
        if blocked_menu_item(x@) {
            let t = s.remove(i - 1);
            lemma_removals_depend_on_prefix(s, t, i - 1);
            let rs = removals_below(s, i);
            assert(rs[0] == i - 1);
            assert(rs.drop_first() =~= removals_below(s, i - 1));
            lemma_apply_removals_below(t, i - 1);
            assert(t.take(i - 1) =~= s.take(i - 1));
            assert(t.skip(i - 1) =~= s.skip(i));
        } else {
            lemma_apply_removals_below(s, i - 1);
            assert(s.skip(i - 1) =~= seq![x] + s.skip(i));
            assert(kept_items(s.take(i)) == kept_items(s.take(i - 1)).push(x));
            assert(kept_items(s.take(i - 1)) + s.skip(i - 1) =~= kept_items(s.take(i))
                + s.skip(i));
        }
    }
}

/// Law: removing the entries at the positions `context_menu_removals`
/// gives, in that order, leaves exactly the entries that are not blocked,
/// in their order: back, forward, reload and inspect go, Copy and every
/// other entry stay.
pub proof fn law_removals_keep_the_rest(items: Seq<String>)
    ensures
        apply_removals(items, removals_below(items, items.len() as int)) == kept_items(items),
{
    lemma_apply_removals_below(items, items.len() as int);
    assert(items.take(items.len() as int) =~= items);
    assert(items.skip(items.len() as int) =~= Seq::<String>::empty());
    assert(kept_items(items) + Seq::<String>::empty() =~= kept_items(items));
}

proof fn lemma_removals_below_members(items: Seq<String>, i: int)
    requires
        0 <= i <= items.len(),
    ensures
        forall|k: int|
            #[trigger] removals_below(items, i).contains(k) <==> (0 <= k < i && blocked_menu_item(
                items[k]@,
            )),
    decreases i,
{
    if i > 0 {
        lemma_removals_below_members(items, i - 1);
        let prev = removals_below(items, i - 1);
        let cur = removals_below(items, i);
        assert forall|k: int| #[trigger] cur.contains(k) <==> (0 <= k < i && blocked_menu_item(items[k]@)) by {
            if blocked_menu_item(items[i - 1]@) {
                assert(cur == seq![i - 1] + prev);
                if cur.contains(k) {
                    let j = choose|j: int| 0 <= j < cur.len() && cur[j] == k;
                    if j > 0 {
                        assert(prev[j - 1] == k);
                        assert(prev.contains(k));
                    }
                }
                if 0 <= k < i && blocked_menu_item(items[k]@) {
                    if k == i - 1 {
                        assert(cur[0] == k);
                    } else {
                        assert(prev.contains(k));
                        let j = choose|j: int| 0 <= j < prev.len() && prev[j] == k;
                        assert(cur[j + 1] == k);
                    }
                }
            }
        }
    }
}

/// Law: the entries that `context_menu_removals` removes are exactly those
/// named `back`, `forward`, `reload` or `inspectElement`; an entry with any
/// other name (Save as, Print, Copy, ...) is never removed.
pub proof fn law_only_navigation_reload_and_inspect_are_removed(items: Seq<String>)
    ensures
        forall|k: int|
            0 <= k < items.len() ==> (#[trigger] removals_below(items, items.len() as int).contains(k)
                <==> (items[k]@ == "back"@ || items[k]@ == "forward"@ || items[k]@ == "reload"@
                || items[k]@ == "inspectElement"@)),
        forall|k: int| #[trigger]
            removals_below(items, items.len() as int).contains(k) ==> 0 <= k < items.len(),
{
    lemma_removals_below_members(items, items.len() as int);
}

// ---------------------------------------------------------------------------
// Permission requests.

/// The kind of a permission that the page asks for.
#[derive(Debug, Clone, Copy, PartialEq, Eq, Structural)]
pub enum PermissionKind {
    /// The clipboard (reading and writing both go by this kind).
    Clipboard,
    /// Any other kind: camera, microphone, location, notifications, ...
    Other,
}

/// Whether a permission request is granted: the clipboard only; every other
/// request is left to the control's default, which denies it.
pub fn grants_permission(kind: PermissionKind) -> (r: bool)
    ensures
        r == (kind == PermissionKind::Clipboard),
{
    match kind {
        PermissionKind::Clipboard => true,
        PermissionKind::Other => false,
    }
}

} // verus!
