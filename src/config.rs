use vstd::prelude::*;

verus! {

/// The origin used for redirects when no application URL is configured.
pub open spec fn default_app_url() -> Seq<char> {
    seq!['h', 't', 't', 'p', ':', '/', '/', 'l', 'o', 'c', 'a', 'l', 'h', 'o', 's', 't', ':', '3', '0', '0', '0']
}

/// Process-wide billing settings, built once at start and passed by reference.
#[derive(Clone, Debug)]
pub struct BillingConfig {
    /// Authenticates calls to the payment provider.
    pub api_secret_key: String,
    /// Key against which webhook signatures are verified.
    pub webhook_signing_secret: String,
    /// Origin of the application, where a cancelled checkout returns.
    pub app_url: String,
}

impl BillingConfig {
    /// Settings from the two secrets and the optional application origin.
    pub fn new(api_secret_key: String, webhook_signing_secret: String, app_url: Option<String>) -> (r:
        BillingConfig)
        ensures
            r.api_secret_key == api_secret_key,
            r.webhook_signing_secret == webhook_signing_secret,
            app_url is Some ==> r.app_url == app_url->0,
            app_url is None ==> r.app_url@ == default_app_url(),
    {
        let app_url = match app_url {
            Some(url) => url,
            None => {
                proof {
                    reveal_strlit("http://localhost:3000");
                }
                let url = "http://localhost:3000".to_owned();
                proof {
                    assert(url@ =~= default_app_url());
                }
                url
            },
        };
        BillingConfig { api_secret_key, webhook_signing_secret, app_url }
    }
}

} // verus!
