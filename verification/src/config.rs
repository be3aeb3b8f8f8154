use vstd::prelude::*;

verus! {

/// Settings shared by the server binaries and the client.
pub struct Config {
    /// Upper bound on the length of strings carried in a URL.
    pub url_string_lim: usize,
    /// Address that the test server binds.
    pub test_server_addr: &'static str,
    /// API root used by the client in test builds.
    pub test_api_domain: &'static str,
    /// API root path, appended to the page origin in production builds.
    pub api_domain: &'static str,
}

impl Config {
    /// The settings used by every part of the site.
    pub fn default() -> (c: Config)
        ensures
            c.url_string_lim == 100,
            c.test_server_addr@ == "127.0.0.1:8000"@,
            c.test_api_domain@ == "http://127.0.0.1:8000/api"@,
            c.api_domain@ == "/api"@,
    {
        Config {
            url_string_lim: 100,
            test_server_addr: "127.0.0.1:8000",
            test_api_domain: "http://127.0.0.1:8000/api",
            api_domain: "/api",
        }
    }
}

/// Law: the API root that test builds of the client use is the test server's
/// address (as `Config::default` gives it) under the API path, so a test
/// client talks to the test server.
pub proof fn lemma_test_api_domain_is_test_server()
    ensures
        "http://127.0.0.1:8000/api"@ == "http://"@ + "127.0.0.1:8000"@ + "/api"@,
{
    reveal_strlit("http://127.0.0.1:8000/api");
    reveal_strlit("http://");
    reveal_strlit("127.0.0.1:8000");
    reveal_strlit("/api");
    assert("http://127.0.0.1:8000/api"@ =~= "http://"@ + "127.0.0.1:8000"@ + "/api"@);
}

} // verus!
