use vstd::prelude::*;

verus! {

/// The htmx attributes a rendered element carries; unset ones are left
/// off the markup entirely.
#[derive(Debug, Clone)]
pub struct HxCfg<'a> {
    pub post: Option<&'a str>,
    pub get: Option<&'a str>,
    pub trigger: Option<&'a str>,
    pub target: Option<&'a str>,
    pub swap: Option<&'a str>,
    pub select_oob: Option<&'a str>,
    pub vals: Option<&'a str>,
    pub script: Option<&'a str>,
    pub disabled_elt: Option<&'a str>,
}

impl<'a> core::default::Default for HxCfg<'a> {
    /// A configuration with every attribute unset.
    fn default() -> (r: Self)
        ensures
            r == HxCfg::<'a>::spec_empty(),
    {
        HxCfg {
            post: None,
            get: None,
            trigger: None,
            target: None,
            swap: None,
            select_oob: None,
            vals: None,
            script: None,
            disabled_elt: None,
        }
    }
}

impl<'a> HxCfg<'a> {
    /// The configuration with every attribute unset.
    pub open spec fn spec_empty() -> HxCfg<'a> {
        HxCfg {
            post: None,
            get: None,
            trigger: None,
            target: None,
            swap: None,
            select_oob: None,
            vals: None,
            script: None,
            disabled_elt: None,
        }
    }

    /// A configuration with every attribute unset.
    pub fn new() -> (r: Self)
        ensures
            r == HxCfg::<'a>::spec_empty(),
    {
        HxCfg {
            post: None,
            get: None,
            trigger: None,
            target: None,
            swap: None,
            select_oob: None,
            vals: None,
            script: None,
            disabled_elt: None,
        }
    }

    /// Sets the post URL and leaves every other attribute as it was.
    pub fn with_post(self, val: &'a str) -> (r: Self)
        ensures
            r == (HxCfg { post: Some(val), ..self }),
    {
        HxCfg { post: Some(val), ..self }
    }

    /// Sets the get URL and leaves every other attribute as it was.
    pub fn with_get(self, val: &'a str) -> (r: Self)
        ensures
            r == (HxCfg { get: Some(val), ..self }),
    {
        HxCfg { get: Some(val), ..self }
    }

    /// Sets the trigger and leaves every other attribute as it was.
    pub fn with_trigger(self, val: &'a str) -> (r: Self)
        ensures
            r == (HxCfg { trigger: Some(val), ..self }),
    {
        HxCfg { trigger: Some(val), ..self }
    }

    /// Sets the target and leaves every other attribute as it was.
    pub fn with_target(self, val: &'a str) -> (r: Self)
        ensures
            r == (HxCfg { target: Some(val), ..self }),
    {
        HxCfg { target: Some(val), ..self }
    }

    /// Sets the swap mode and leaves every other attribute as it was.
    pub fn with_swap(self, val: &'a str) -> (r: Self)
        ensures
            r == (HxCfg { swap: Some(val), ..self }),
    {
        HxCfg { swap: Some(val), ..self }
    }

    /// Sets the out-of-band select and leaves the rest as it was.
    pub fn with_select_oob(self, val: &'a str) -> (r: Self)
        ensures
            r == (HxCfg { select_oob: Some(val), ..self }),
    {
        HxCfg { select_oob: Some(val), ..self }
    }

    /// Sets the request values and leaves every other attribute as it was.
    pub fn with_vals(self, val: &'a str) -> (r: Self)
        ensures
            r == (HxCfg { vals: Some(val), ..self }),
    {
        HxCfg { vals: Some(val), ..self }
    }

    /// Sets the disabled-element selector and leaves the rest as it was.
    pub fn with_disabled_elt(self, val: &'a str) -> (r: Self)
        ensures
            r == (HxCfg { disabled_elt: Some(val), ..self }),
    {
        HxCfg { disabled_elt: Some(val), ..self }
    }

    /// Sets the inline script and leaves every other attribute as it was.
    pub fn with_script(self, val: &'a str) -> (r: Self)
        ensures
            r == (HxCfg { script: Some(val), ..self }),
    {
        HxCfg { script: Some(val), ..self }
    }
}

/// How htmx swaps a response into the page.
#[derive(Debug, Clone, Copy, PartialEq, Eq, Structural)]
pub enum HxSwap {
    InnerHTML,
    OuterHTML,
    BeforeBegin,
    AfterBegin,
    BeforeEnd,
    AfterEnd,
    Delete,
    NoSwap,
}

/// The wire spelling of a swap mode, as the header value carries it.
pub open spec fn spec_hx_swap_name(s: HxSwap) -> Seq<char> {
    match s {
        HxSwap::InnerHTML => "innerHTML"@,
        HxSwap::OuterHTML => "outerHTML"@,
        HxSwap::BeforeBegin => "beforebegin"@,
        HxSwap::AfterBegin => "afterbegin"@,
        HxSwap::BeforeEnd => "beforeend"@,
        HxSwap::AfterEnd => "afterend"@,
        HxSwap::Delete => "delete"@,
        HxSwap::NoSwap => "none"@,
    }
}

impl HxSwap {
    /// The wire spelling of this swap mode.
    pub fn as_str(&self) -> (r: &'static str)
        ensures
            r@ == spec_hx_swap_name(*self),
    {
        match self {
            HxSwap::InnerHTML => "innerHTML",
            HxSwap::OuterHTML => "outerHTML",
            HxSwap::BeforeBegin => "beforebegin",
            HxSwap::AfterBegin => "afterbegin",
            HxSwap::BeforeEnd => "beforeend",
            HxSwap::AfterEnd => "afterend",
            HxSwap::Delete => "delete",
            HxSwap::NoSwap => "none",
        }
    }
}

/// The htmx response headers to set: a retarget, a reswap and a redirect,
/// each optional.
#[derive(Debug)]
pub struct HxHeaderBuilder {
    pub target: Option<&'static str>,
    pub swap: Option<HxSwap>,
    pub redirect: Option<&'static str>,
}

impl core::default::Default for HxHeaderBuilder {
    /// A builder with no header set.
    fn default() -> (r: Self)
        ensures
            r.target is None,
            r.swap is None,
            r.redirect is None,
    {
        HxHeaderBuilder { target: None, swap: None, redirect: None }
    }
}

impl HxHeaderBuilder {
    /// A builder with no header set.
    pub fn new() -> (r: Self)
        ensures
            r.target is None,
            r.swap is None,
            r.redirect is None,
    {
        HxHeaderBuilder { target: None, swap: None, redirect: None }
    }

    /// Sets the retarget header and leaves the others as they were.
    pub fn with_target(self, target: &'static str) -> (r: Self)
        ensures
            r == (HxHeaderBuilder { target: Some(target), ..self }),
    {
        HxHeaderBuilder { target: Some(target), ..self }
    }

    /// Sets the reswap header and leaves the others as they were.
    pub fn with_swap(self, swap: HxSwap) -> (r: Self)
        ensures
            r == (HxHeaderBuilder { swap: Some(swap), ..self }),
    {
        HxHeaderBuilder { swap: Some(swap), ..self }
    }

    /// Sets the redirect header and leaves the others as they were.
    pub fn with_redirect(self, redirect: &'static str) -> (r: Self)
        ensures
            r == (HxHeaderBuilder { redirect: Some(redirect), ..self }),
    {
        HxHeaderBuilder { redirect: Some(redirect), ..self }
    }
}

} // verus!
