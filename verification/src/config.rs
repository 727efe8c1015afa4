//! Server settings.
use crate::text::same_text;
use vstd::prelude::*;
use vstd::string::*;

verus! {

/// Server settings.
#[derive(Debug)]
pub struct Config {
    /// Base URL of the Audiobookshelf instance, no trailing slash.
    pub abs_base_url: String,
    /// TCP address to listen on (e.g. "0.0.0.0:3456").
    pub bind: String,
    /// Path to the compiled single-page client.
    pub static_dir: String,
    /// When true, tokens are not checked with Audiobookshelf.
    pub bypass_auth: bool,
    /// Allowed cross-origin for CORS, if any.
    pub cors_origin: Option<String>,
}

/// The listen address: `BIND` where set, else port `PORT` on all interfaces,
/// else `0.0.0.0:3456`.
pub open spec fn bind_address(bind: Option<Seq<char>>, port: Option<Seq<char>>) -> Seq<char> {
    match bind {
        Some(b) => b,
        None => match port {
            Some(p) => "0.0.0.0:"@ + p,
            None => "0.0.0.0:3456"@,
        },
    }
}

/// A setting taken by its characters.
pub open spec fn setting_view(v: Option<String>) -> Option<Seq<char>> {
    match v {
        Some(s) => Some(s@),
        None => None,
    }
}

/// The bypass switch is on for the values `1` and `true` only.
pub open spec fn bypass_enabled(v: Option<Seq<char>>) -> bool {
    match v {
        Some(s) => s == "1"@ || s == "true"@,
        None => false,
    }
}

impl Clone for Config {
    fn clone(&self) -> (r: Self)
        ensures
            r == *self,
    {
        Config {
            abs_base_url: self.abs_base_url.clone(),
            bind: self.bind.clone(),
            static_dir: self.static_dir.clone(),
            bypass_auth: self.bypass_auth,
            cors_origin: match &self.cors_origin {
                Some(o) => Some(o.clone()),
                None => None,
            },
        }
    }
}

impl Config {
    /// Settings from the values of the environment variables `ABS_BASE_URL`,
    /// `BIND`, `PORT`, `STATIC_DIR`, `BYPASS_AUTH` and `CORS_ORIGIN` (`None`
    /// where unset), with their defaults.
    pub fn from_settings(
        abs_base_url: Option<String>,
        bind: Option<String>,
        port: Option<String>,
        static_dir: Option<String>,
        bypass_auth: Option<String>,
        cors_origin: Option<String>,
    ) -> (c: Config)
        ensures
            c.abs_base_url@ == match setting_view(abs_base_url) {
                Some(u) => u,
                None => "http://localhost:13378"@,
            },
            c.bind@ == bind_address(setting_view(bind), setting_view(port)),
            c.static_dir@ == match setting_view(static_dir) {
                Some(d) => d,
                None => "./static"@,
            },
            c.bypass_auth == bypass_enabled(setting_view(bypass_auth)),
            setting_view(c.cors_origin) == setting_view(cors_origin),
    {
        let bind = match bind {
            Some(b) => b,
            None => match port {
                Some(p) => {
                    let mut a = String::from_str("0.0.0.0:");
                    a.append(p.as_str());
                    a
                },
                None => String::from_str("0.0.0.0:3456"),
            },
        };
        let bypass = match &bypass_auth {
            Some(v) => same_text(v.as_str(), "1") || same_text(v.as_str(), "true"),
            None => false,
        };
        Config {
            abs_base_url: match abs_base_url {
                Some(u) => u,
                None => String::from_str("http://localhost:13378"),
            },
            bind,
            static_dir: match static_dir {
                Some(d) => d,
                None => String::from_str("./static"),
            },
            bypass_auth: bypass,
            cors_origin,
        }
    }

    /// Settings for tests: a fake Audiobookshelf, any free local port, and no
    /// token checks.
    pub fn for_test() -> (c: Config)
        ensures
            c.abs_base_url@ == "http://abs.test"@,
            c.bind@ == "127.0.0.1:0"@,
            c.static_dir@ == "./static"@,
            c.bypass_auth,
            c.cors_origin is None,
    {
        Config {
            abs_base_url: String::from_str("http://abs.test"),
            bind: String::from_str("127.0.0.1:0"),
            static_dir: String::from_str("./static"),
            bypass_auth: true,
            cors_origin: None,
        }
    }
}

} // verus!
