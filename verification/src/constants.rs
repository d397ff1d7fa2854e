use vstd::prelude::*;

verus! {

/// Endpoint of the portal's GraphQL gateway.
pub const GRAPHQL_URL: &'static str = "https://gateway.embracecloud.nl/graphql";

/// Token endpoint of the identity provider.
pub const TOKEN_URL: &'static str =
    "https://auth.embracecloud.nl/auth/realms/sshn/protocol/openid-connect/token";

/// Callback that the identity provider redirects to after a login.
pub const REDIRECT_URI: &'static str = "https://mijn.sshn.nl/authentication/callback";

/// Locale tag sent with every request that takes one.
pub const LOCALE: &'static str = "en-US";

/// OAuth2 client identifier of the portal.
pub const CLIENT_ID: &'static str = "portal-legacy";

} // verus!
