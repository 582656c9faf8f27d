//! The connection settings that the boot page submits: which of the two
//! connection modes to use, and the address of the web UI.

use vstd::prelude::*;
use crate::text::{
    ascii_lowercase, has_prefix, is_white_space, owned, same_text, starts_with, to_ascii_lowercase,
    trim, trim_end, trim_start, trimmed,
};

verus! {

/// Why submitted connection settings were refused.
#[derive(Debug, Clone, Copy, PartialEq, Eq, Structural)]
pub enum SettingsError {
    /// The mode is neither `smart` nor `connect`.
    InvalidMode,
    /// The `connect` mode was chosen without an `http://` or `https://`
    /// address.
    ConnectWithoutAddress,
}

impl SettingsError {
    /// The text shown to the user for this error.
    pub fn message(&self) -> (r: String)
        ensures
            r@ == settings_error_text(*self),
    {
        match self {
            SettingsError::InvalidMode => owned("连接模式只能是 smart 或 connect。"),
            SettingsError::ConnectWithoutAddress => owned(
                "固定地址模式需要有效的 Web UI 地址（http:// 或 https://）。",
            ),
        }
    }
}

pub open spec fn settings_error_text(e: SettingsError) -> Seq<char> {
    match e {
        SettingsError::InvalidMode => "连接模式只能是 smart 或 connect。"@,
        SettingsError::ConnectWithoutAddress => "固定地址模式需要有效的 Web UI 地址（http:// 或 https://）。"@,
    }
}

/// Settings that passed the checks, in their normal form.
#[derive(Debug, Clone, PartialEq, Eq)]
pub struct ConnectionChoice {
    pub server_url: Option<String>,
    pub connection_mode: String,
}

impl ConnectionChoice {
    pub open spec fn model(&self) -> (Option<Seq<char>>, Seq<char>) {
        (self.server_url.deep_view(), self.connection_mode@)
    }
}

/// The address starts with `http://` or `https://`.
pub open spec fn has_web_scheme(u: Seq<char>) -> bool {
    has_prefix(u, "http://"@) || has_prefix(u, "https://"@)
}

/// The mode in normal form: trimmed, ASCII letters made lower-case.
pub open spec fn normal_mode(mode: Seq<char>) -> Seq<char> {
    ascii_lowercase(trimmed(mode))
}

/// The address in normal form: trimmed; absent when nothing is left;
/// `http://` put in front when it names no scheme of its own.
pub open spec fn normal_url(url: Option<Seq<char>>) -> Option<Seq<char>> {
    match url {
        None => None,
        Some(v) => {
            let t = trimmed(v);
            if t.len() == 0 {
                None
            } else if has_web_scheme(t) {
                Some(t)
            } else {
                Some("http://"@ + t)
            }
        },
    }
}

/// What submitting the settings `(url, mode)` yields.
pub open spec fn connection_outcome(url: Option<Seq<char>>, mode: Seq<char>) -> Result<
    (Option<Seq<char>>, Seq<char>),
    SettingsError,
> {
    let m = normal_mode(mode);
    if m != "smart"@ && m != "connect"@ {
        Err(SettingsError::InvalidMode)
    } else {
        let u = normal_url(url);
        if m == "connect"@ && !(u matches Some(v) && has_web_scheme(v)) {
            Err(SettingsError::ConnectWithoutAddress)
        } else {
            Ok((u, m))
        }
    }
}

fn has_web_scheme_exec(u: &str) -> (r: bool)
    ensures
        r == has_web_scheme(u@),
{
    starts_with(u, "http://") || starts_with(u, "https://")
}

/// Checks and normalises connection settings: the mode is trimmed and
/// lower-cased and must be `smart` or `connect`; the address is trimmed,
/// dropped when empty, and given `http://` when it has no `http://` or
/// `https://` of its own; the `connect` mode needs an address.
pub fn normalize_connection_settings(server_url: Option<String>, connection_mode: &str) -> (r:
    Result<ConnectionChoice, SettingsError>)
    ensures
        match connection_outcome(server_url.deep_view(), connection_mode@) {
            Ok(v) => r matches Ok(c) && c.model() == v,
            Err(e) => r == Err::<ConnectionChoice, SettingsError>(e),
        },
{
    let trimmed_mode = trim(connection_mode);
    let mode = to_ascii_lowercase(trimmed_mode.as_str());
    let is_smart = same_text(mode.as_str(), "smart");
    let is_connect = same_text(mode.as_str(), "connect");
    if !is_smart && !is_connect {
        return Err(SettingsError::InvalidMode);
    }
    let url: Option<String> = match server_url {
        None => None,
        Some(value) => {
            let t = trim(value.as_str());
            if t.unicode_len() == 0 {
                None
            } else if has_web_scheme_exec(t.as_str()) {
                Some(t)
            } else {
                let mut with_scheme = owned("http://");
                with_scheme.append(t.as_str());
                Some(with_scheme)
            }
        },
    };
    assert(url.deep_view() == normal_url(server_url.deep_view()));
    let url_ok = match &url {
        Some(u) => has_web_scheme_exec(u.as_str()),
        None => false,
    };
    if is_connect && !url_ok {
        return Err(SettingsError::ConnectWithoutAddress);
    }
    Ok(ConnectionChoice { server_url: url, connection_mode: mode })
}

// ---------------------------------------------------------------------------
// Facts about trimming used by the laws below.

proof fn lemma_trim_start_shape(s: Seq<char>)
    ensures
        trim_start(s).len() == 0 || !is_white_space(trim_start(s)[0]),
        trim_start(s).len() > 0 ==> trim_start(s).last() == s.last(),
    decreases s.len(),
{
    if s.len() > 0 && is_white_space(s[0]) {
        lemma_trim_start_shape(s.drop_first());
    }
}

proof fn lemma_trim_end_shape(s: Seq<char>)
    ensures
        trim_end(s).len() == 0 || !is_white_space(trim_end(s).last()),
        trim_end(s).len() > 0 ==> trim_end(s)[0] == s[0],
    decreases s.len(),
{
    if s.len() > 0 && is_white_space(s.last()) {
        lemma_trim_end_shape(s.drop_last());
    }
}

/// What `trimmed` returns is empty or neither starts nor ends with white
/// space.
proof fn lemma_trimmed_shape(s: Seq<char>)
    ensures
        trimmed(s).len() == 0 || (!is_white_space(trimmed(s)[0]) && !is_white_space(
            trimmed(s).last(),
        )),
{
    lemma_trim_start_shape(s);
    lemma_trim_end_shape(trim_start(s));
}

/// Text that neither starts nor ends with white space is left alone by
/// `trimmed`.
proof fn lemma_trimmed_fixed(s: Seq<char>)
    requires
        s.len() == 0 || (!is_white_space(s[0]) && !is_white_space(s.last())),
    ensures
        trimmed(s) == s,
{
}

proof fn lemma_lower_fixed_literals()
    ensures
        normal_mode("smart"@) == "smart"@,
        normal_mode("connect"@) == "connect"@,
{
    reveal_strlit("smart");
    reveal_strlit("connect");
    lemma_trimmed_fixed("smart"@);
    lemma_trimmed_fixed("connect"@);
    assert(ascii_lowercase("smart"@) =~= "smart"@);
    assert(ascii_lowercase("connect"@) =~= "connect"@);
}

proof fn lemma_normal_url_has_scheme(url: Option<Seq<char>>)
    ensures
        normal_url(url) matches Some(v) ==> has_web_scheme(v) && trimmed(v) == v,
{
    reveal_strlit("http://");
    reveal_strlit("https://");
    if let Some(v) = url {
        let t = trimmed(v);
        lemma_trimmed_shape(v);
        if t.len() > 0 && !has_web_scheme(t) {
            let w = "http://"@ + t;
            assert(w.take(7) =~= "http://"@);
            assert(w[0] == 'h');
            assert(w.last() == t.last());
            lemma_trimmed_fixed(w);
        } else if t.len() > 0 {
            lemma_trimmed_fixed(t);
        }
    }
}

/// Law: accepted settings are in normal form. The mode is `smart` or
/// `connect`; an address, when there is one, starts with `http://` or
/// `https://`; the `connect` mode always comes with an address.
pub proof fn law_accepted_settings_are_normal(url: Option<Seq<char>>, mode: Seq<char>)
    ensures
        connection_outcome(url, mode) matches Ok((u, m)) ==> {
            &&& (m == "smart"@ || m == "connect"@)
            &&& (u matches Some(v) ==> has_web_scheme(v))
            &&& (m == "connect"@ ==> u is Some)
        },
{
    lemma_normal_url_has_scheme(url);
}

/// Law: submitting settings that were accepted gives them back unchanged,
/// so normalising is idempotent.
pub proof fn law_normalizing_is_idempotent(url: Option<Seq<char>>, mode: Seq<char>)
    ensures
        connection_outcome(url, mode) matches Ok((u, m)) ==> connection_outcome(u, m) == Ok::<
            (Option<Seq<char>>, Seq<char>),
            SettingsError,
        >((u, m)),
{
    lemma_lower_fixed_literals();
    lemma_normal_url_has_scheme(url);
    if let Ok((u, m)) = connection_outcome(url, mode) {
        assert(normal_mode(m) == m);
        if let Some(v) = u {
            assert(normal_url(u) == u);
        }
    }
}

/// Law: in the `connect` mode every address that is not blank is accepted;
/// an address that already starts with `http://` or `https://` is kept as
/// it was (trimmed), any other gets `http://` in front.
pub proof fn law_connect_accepts_every_address(url: Option<Seq<char>>, mode: Seq<char>, v: Seq<char>)
    requires
        ascii_lowercase(trimmed(mode)) == "connect"@,
        url == Some(v),
        trimmed(v).len() > 0,
    ensures
        (has_prefix(trimmed(v), "http://"@) || has_prefix(trimmed(v), "https://"@))
            ==> connection_outcome(url, mode) == Ok::<(Option<Seq<char>>, Seq<char>), SettingsError>(
            (Some(trimmed(v)), "connect"@),
        ),
        !(has_prefix(trimmed(v), "http://"@) || has_prefix(trimmed(v), "https://"@))
            ==> connection_outcome(url, mode) == Ok::<(Option<Seq<char>>, Seq<char>), SettingsError>(
            (Some("http://"@ + trimmed(v)), "connect"@),
        ),
{
    reveal_strlit("connect");
    reveal_strlit("smart");
    assert("connect"@ != "smart"@) by {
        assert("connect"@[0] != "smart"@[0]);
    }
    lemma_normal_url_has_scheme(url);
}

/// Law: in either mode, an address that starts with `https://` (or
/// `http://`) after trimming is accepted as it is, trimmed.
pub proof fn law_web_addresses_are_kept(url: Option<Seq<char>>, mode: Seq<char>, v: Seq<char>)
    requires
        ascii_lowercase(trimmed(mode)) == "connect"@ || ascii_lowercase(trimmed(mode)) == "smart"@,
        url == Some(v),
        has_prefix(trimmed(v), "https://"@) || has_prefix(trimmed(v), "http://"@),
    ensures
        connection_outcome(url, mode) == Ok::<(Option<Seq<char>>, Seq<char>), SettingsError>(
            (Some(trimmed(v)), ascii_lowercase(trimmed(mode))),
        ),
{
    reveal_strlit("https://");
    reveal_strlit("http://");
    assert(trimmed(v).len() > 0) by {
        if has_prefix(trimmed(v), "https://"@) {
            assert(trimmed(v).len() >= "https://"@.len());
        } else {
            assert(trimmed(v).len() >= "http://"@.len());
        }
    }
}

/// Law: which settings are refused, and why. A mode that is not `smart`
/// or `connect` (after trimming, in any letter case) is refused as such;
/// the `connect` mode with no address, or a blank one, is refused for the
/// missing address; everything else is accepted, and the `smart` mode is
/// accepted with any address or none.
pub proof fn law_which_settings_are_refused(url: Option<Seq<char>>, mode: Seq<char>)
    ensures
        (ascii_lowercase(trimmed(mode)) != "smart"@ && ascii_lowercase(trimmed(mode))
            != "connect"@) <==> connection_outcome(url, mode) == Err::<
            (Option<Seq<char>>, Seq<char>),
            SettingsError,
        >(SettingsError::InvalidMode),
        ascii_lowercase(trimmed(mode)) == "connect"@ ==> (connection_outcome(url, mode) == Err::<
            (Option<Seq<char>>, Seq<char>),
            SettingsError,
        >(SettingsError::ConnectWithoutAddress) <==> (url is None || trimmed(url->0).len() == 0)),
        ascii_lowercase(trimmed(mode)) == "smart"@ ==> connection_outcome(url, mode) is Ok,
{
    reveal_strlit("connect");
    reveal_strlit("smart");
    assert("connect"@ != "smart"@) by {
        assert("connect"@[0] != "smart"@[0]);
    }
    lemma_normal_url_has_scheme(url);
}

} // verus!
