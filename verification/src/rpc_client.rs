//! The gateway endpoint and the wallet-scoped handles derived from it.

use crate::error::WalletError;
use url::Url;
use vstd::prelude::*;
use vstd::utf8::encode_utf8;

verus! {

/// The longest base address, in bytes, that a handle is derived from.
pub const MAX_URL_BYTES: usize = 2048;

/// The longest wallet path, in bytes, that a handle is derived for.
pub const MAX_PATH_BYTES: usize = 512;

/// User and password for basic authentication.
#[derive(Debug, PartialEq, Eq)]
pub struct Credentials {
    pub user: String,
    pub password: String,
}

impl Clone for Credentials {
    fn clone(&self) -> (r: Self)
        ensures
            r == *self,
    {
        Credentials { user: self.user.clone(), password: self.password.clone() }
    }
}

/// The gateway's base address and the credentials to use with it.
#[derive(Debug, PartialEq, Eq)]
pub struct RpcClientData {
    pub base_url: String,
    pub auth: Credentials,
}

/// Everything needed to talk to one wallet's sub-resource on the gateway.
#[derive(Debug, PartialEq, Eq)]
pub struct WalletHandle {
    pub wallet_name: String,
    pub url: String,
    pub auth: Credentials,
}

/// The address that `url::Url` serialises after parsing `base` and replacing
/// its path by `path`; `None` where `base` does not parse as a URL.
pub uninterp spec fn url_with_path(base: Seq<char>, path: Seq<char>) -> Option<Seq<char>>;

/// The view of an optional text.
pub open spec fn text_of(value: Option<String>) -> Option<Seq<char>> {
    match value {
        Some(s) => Some(s@),
        None => None,
    }
}

/// Parses `base` with `url::Url::parse`, calls `Url::set_path` with `path`
/// and returns `Url::as_str`. The result is named by `url_with_path`; both
/// texts are bounded so that the serialisation stays far below the parser's
/// length limit.
#[verifier::external_body]
fn replace_path(base: &str, path: &str) -> (r: Option<String>)
    requires
        encode_utf8(base@).len() <= MAX_URL_BYTES,
        encode_utf8(path@).len() <= MAX_PATH_BYTES,
    ensures
        text_of(r) == url_with_path(base@, path@),
{
    match Url::parse(base) {
        Ok(mut url) => {
            url.set_path(path);
            Some(url.as_str().to_string())
        },
        Err(_) => None,
    }
}

/// Characters that a wallet name cannot carry into a path segment: the two
/// separators, the percent sign (it would be read as the start of an escape)
/// and control characters (a URL parser drops some of them silently).
pub open spec fn breaks_segment(c: char) -> bool {
    c == '/' || c == '\\' || c == '%' || (c as u32) < 0x20 || c == '\x7f'
}

/// The per-wallet path on the gateway.
pub open spec fn wallet_path(name: Seq<char>) -> Seq<char> {
    "/wallet/"@ + name
}

/// A wallet name can be embedded in a path segment when it is not empty, is
/// neither of the dot segments, holds no separator, percent sign or control
/// character, and its path stays within `MAX_PATH_BYTES`.
pub open spec fn valid_wallet_name(name: Seq<char>) -> bool {
    &&& name.len() > 0
    &&& encode_utf8(wallet_path(name)).len() <= MAX_PATH_BYTES
    &&& name != seq!['.']
    &&& name != seq!['.', '.']
    &&& forall|i: int| 0 <= i < name.len() ==> !breaks_segment(#[trigger] name[i])
}

/// What deriving a handle yields, given the derived address if there is one.
pub open spec fn handle_outcome(
    data: RpcClientData,
    name: Seq<char>,
    handle: Result<WalletHandle, WalletError>,
) -> bool {
    if !valid_wallet_name(name) {
        handle == Err::<WalletHandle, WalletError>(WalletError::InvalidWalletName)
    } else if encode_utf8(data.base_url@).len() > MAX_URL_BYTES {
        handle == Err::<WalletHandle, WalletError>(WalletError::GatewayUnreachable)
    } else {
        match url_with_path(data.base_url@, wallet_path(name)) {
            None => handle == Err::<WalletHandle, WalletError>(WalletError::GatewayUnreachable),
            Some(url) => {
                &&& handle matches Ok(h)
                &&& h.wallet_name@ == name
                &&& h.url@ == url
                &&& h.auth == data.auth
            },
        }
    }
}

fn has_breaking_char(name: &str) -> (r: bool)
    ensures
        r == exists|i: int| 0 <= i < name@.len() && breaks_segment(#[trigger] name@[i]),
{
    let n: usize = name.unicode_len();
    let mut i: usize = 0;
    while i < n
        invariant
            n == name@.len(),
            i <= n,
            forall|j: int| 0 <= j < i ==> !breaks_segment(#[trigger] name@[j]),
        decreases n - i,
    {
        let c = name.get_char(i);
        if c == '/' || c == '\\' || c == '%' || (c as u32) < 0x20 || c == '\x7f' {
            return true;
        }
        i += 1;
    }
    false
}

fn is_dot_segment(name: &str) -> (r: bool)
    ensures
        r == (name@ == seq!['.'] || name@ == seq!['.', '.']),
{
    let n: usize = name.unicode_len();
    if n == 1 {
        let r = name.get_char(0) == '.';
        assert(r ==> name@ =~= seq!['.']);
        r
    } else if n == 2 {
        let r = name.get_char(0) == '.' && name.get_char(1) == '.';
        assert(r ==> name@ =~= seq!['.', '.']);
        r
    } else {
        false
    }
}

impl RpcClientData {
    /// Bundles a base address with credentials.
    pub fn new(base_url: String, auth: Credentials) -> (r: Self)
        ensures
            r.base_url == base_url,
            r.auth == auth,
    {
        RpcClientData { base_url, auth }
    }

    /// Decides whether `wallet_name` can be embedded in a path segment.
    pub fn check_wallet_name(wallet_name: &str) -> (r: bool)
        ensures
            r == valid_wallet_name(wallet_name@),
    {
        if wallet_name.unicode_len() == 0 {
            return false;
        }
        let path = String::from_str("/wallet/").concat(wallet_name);
        if path.as_str().as_bytes().len() > MAX_PATH_BYTES {
            return false;
        }
        if is_dot_segment(wallet_name) {
            return false;
        }
        !has_breaking_char(wallet_name)
    }

    /// Derives the handle for one wallet: the base address with its path
    /// replaced by `/wallet/<name>`, and the endpoint's credentials.
    pub fn new_client_for_wallet(&self, wallet_name: &str) -> (r: Result<
        WalletHandle,
        WalletError,
    >)
        ensures
            handle_outcome(*self, wallet_name@, r),
    {
        if !Self::check_wallet_name(wallet_name) {
            return Err(WalletError::InvalidWalletName);
        }
        if self.base_url.as_str().as_bytes().len() > MAX_URL_BYTES {
            return Err(WalletError::GatewayUnreachable);
        }
        let path = String::from_str("/wallet/").concat(wallet_name);
        match replace_path(self.base_url.as_str(), path.as_str()) {
            Some(url) => Ok(
                WalletHandle {
                    wallet_name: String::from_str(wallet_name),
                    url,
                    auth: self.auth.clone(),
                },
            ),
            None => Err(WalletError::GatewayUnreachable),
        }
    }
}

} // verus!
