//! Configuration of the browser-driven web login, and the decision that ends it.
use vstd::prelude::*;

verus! {

/// Where a web login starts and the page that shows it has succeeded.
pub struct LoginConfig {
    pub page_url: String,
    pub after_url: String,
}

/// Drives a web login in a browser until the page after login is reached.
pub struct LoginBrowser {
    config: LoginConfig,
}

impl LoginBrowser {
    pub closed spec fn config(&self) -> LoginConfig {
        self.config
    }

    pub fn new(config: LoginConfig) -> (r: Self)
        ensures
            r.config() == config,
    {
        LoginBrowser { config }
    }

    /// The page at which the login starts.
    pub fn page_url(&self) -> (r: &String)
        ensures
            r@ == self.config().page_url@,
    {
        &self.config.page_url
    }

    /// Whether the browser, now at `url`, has reached the page after login.
    pub fn is_logged_in(&self, url: &String) -> (r: bool)
        ensures
            r == (url@ == self.config().after_url@),
    {
        *url == self.config.after_url
    }
}

} // verus!
