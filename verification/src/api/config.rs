//! Settings of the HTTP entry point.

use vstd::prelude::*;

verus! {

/// Where the server listens and how large a page of results may be.
#[derive(Debug)]
pub struct Config {
    pub web_addr: String,
    pub page_size_default: u32,
    pub page_size_max: u32,
}

/// Builds the settings from their three values. They are built once, when
/// the process starts, and handed to whoever needs them.
pub fn get_config(web_addr: String, page_size_default: u32, page_size_max: u32) -> (config: Config)
    ensures
        config.web_addr == web_addr,
        config.page_size_default == page_size_default,
        config.page_size_max == page_size_max,
{
    Config { web_addr, page_size_default, page_size_max }
}

impl Clone for Config {
    fn clone(&self) -> (copy: Self)
        ensures
            copy.web_addr@ == self.web_addr@,
            copy.page_size_default == self.page_size_default,
            copy.page_size_max == self.page_size_max,
    {
        Config {
            web_addr: self.web_addr.clone(),
            page_size_default: self.page_size_default,
            page_size_max: self.page_size_max,
        }
    }
}

} // verus!
