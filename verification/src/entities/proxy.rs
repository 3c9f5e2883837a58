use vstd::prelude::*;

verus! {

/// The proxy through which a provider is reached, such as
/// `socks5h://127.0.0.1:1080`.
#[derive(Debug)]
pub struct LLMProxy {
    proxy_scheme: String,
}

impl View for LLMProxy {
    type V = Seq<char>;

    closed spec fn view(&self) -> Seq<char> {
        self.proxy_scheme@
    }
}

/// The scheme of an optional proxy.
pub open spec fn opt_proxy_view(p: Option<LLMProxy>) -> Option<Seq<char>> {
    match p {
        Some(p) => Some(p@),
        None => None,
    }
}

impl Clone for LLMProxy {
    fn clone(&self) -> (r: Self)
        ensures
            r@ == self@,
    {
        LLMProxy { proxy_scheme: self.proxy_scheme.clone() }
    }
}

impl LLMProxy {
    pub fn new(proxy_scheme: &str) -> (r: Self)
        ensures
            r@ == proxy_scheme@,
    {
        LLMProxy { proxy_scheme: String::from_str(proxy_scheme) }
    }

    pub fn proxy_scheme(&self) -> (r: &str)
        ensures
            r@ == self@,
    {
        self.proxy_scheme.as_str()
    }
}

/// A copy of an optional proxy.
pub fn clone_opt_proxy(p: &Option<LLMProxy>) -> (r: Option<LLMProxy>)
    ensures
        opt_proxy_view(r) == opt_proxy_view(*p),
{
    match p {
        Some(p) => Some(p.clone()),
        None => None,
    }
}

/// The scheme of an optional proxy, borrowed.
pub fn opt_proxy_scheme(p: &Option<LLMProxy>) -> (r: Option<&str>)
    ensures
        crate::text::opt_str_view(r) == opt_proxy_view(*p),
{
    match p {
        Some(p) => Some(p.proxy_scheme()),
        None => None,
    }
}

} // verus!
