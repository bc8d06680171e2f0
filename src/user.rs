use vstd::prelude::*;
use vstd::string::StringExecFns;

verus! {

/// The name under which jobs run when no login succeeded.
pub const FALLBACK_IDENTITY: &'static str = "TEST";

/// What `str::trim` makes of a text: the text without leading and trailing
/// white space.
pub uninterp spec fn trimmed(s: Seq<char>) -> Seq<char>;

/// Relies on `str::trim`: the text without leading and trailing white space;
/// an empty text stays empty.
#[verifier::external_body]
fn trim_text(s: &str) -> (r: &str)
    ensures
        r@ == trimmed(s@),
        s@.len() == 0 ==> r@.len() == 0,
{
    s.trim()
}

/// An operator, with the credentials typed in and the token that a login
/// returned, if any.
pub struct User {
    username: String,
    password: String,
    token: String,
}

impl User {
    pub closed spec fn username_view(&self) -> Seq<char> {
        self.username@
    }

    pub closed spec fn password_view(&self) -> Seq<char> {
        self.password@
    }

    pub closed spec fn token_view(&self) -> Seq<char> {
        self.token@
    }

    /// Whether a login gave this user a token.
    pub open spec fn is_authenticated(&self) -> bool {
        self.token_view().len() > 0
    }

    /// A user with no name, no password and no token.
    pub fn new() -> (r: User)
        ensures
            r.username_view().len() == 0,
            r.password_view().len() == 0,
            r.token_view().len() == 0,
    {
        User { username: String::new(), password: String::new(), token: String::new() }
    }

    /// Takes the name and password as typed, without the white space around them.
    pub fn set_credentials(&mut self, username: &str, password: &str)
        ensures
            final(self).username_view() == trimmed(username@),
            final(self).password_view() == trimmed(password@),
            final(self).token_view() == old(self).token_view(),
    {
        self.username = String::from_str(trim_text(username));
        self.password = String::from_str(trim_text(password));
    }

    /// The name typed in.
    pub fn username(&self) -> (r: &str)
        ensures
            r@ == self.username_view(),
    {
        self.username.as_str()
    }

    /// The password typed in.
    pub fn password(&self) -> (r: &str)
        ensures
            r@ == self.password_view(),
    {
        self.password.as_str()
    }

    /// The fields of a login request: the name as `email`, then the password.
    pub fn login_fields(&self) -> (r: Vec<(String, String)>)
        ensures
            r.len() == 2,
            r@[0].0@ == "email"@,
            r@[0].1@ == self.username_view(),
            r@[1].0@ == "password"@,
            r@[1].1@ == self.password_view(),
    {
        let mut fields: Vec<(String, String)> = Vec::new();
        fields.push((String::from_str("email"), self.username.clone()));
        fields.push((String::from_str("password"), self.password.clone()));
        fields
    }

    /// Reads the answer to a login: the token it carried, if any. A token is
    /// kept and the login counts as passed; no token leaves the user as it was.
    pub fn accept_token(&mut self, token: Option<String>) -> (r: bool)
        ensures
            r == token.is_some(),
            final(self).username_view() == old(self).username_view(),
            final(self).password_view() == old(self).password_view(),
            final(self).token_view() == match token {
                Some(t) => t@,
                None => old(self).token_view(),
            },
    {
        match token {
            Some(t) => {
                self.token = t;
                true
            },
            None => false,
        }
    }

    /// The token of the last login that passed.
    pub fn token(&self) -> (r: &str)
        ensures
            r@ == self.token_view(),
    {
        self.token.as_str()
    }

    /// The name that jobs run under: the user's own once a login gave a
    /// token, else the fallback identity.
    pub fn identity(&self) -> (r: &str)
        ensures
            r@ == if self.is_authenticated() {
                self.username_view()
            } else {
                FALLBACK_IDENTITY@
            },
    {
        if !self.token.as_str().is_empty() {
            self.username.as_str()
        } else {
            FALLBACK_IDENTITY
        }
    }
}

/// Where requests go: a host name that paths are appended to.
pub struct HttpClient {
    hostname: String,
}

impl HttpClient {
    pub closed spec fn hostname_view(&self) -> Seq<char> {
        self.hostname@
    }

    /// A client for `hostname`.
    pub fn new(hostname: String) -> (r: HttpClient)
        ensures
            r.hostname_view() == hostname@,
    {
        HttpClient { hostname }
    }

    /// The host name.
    pub fn hostname(&self) -> (r: &str)
        ensures
            r@ == self.hostname_view(),
    {
        self.hostname.as_str()
    }

    /// The address of `path` on the host.
    pub fn url(&self, path: &str) -> (r: String)
        ensures
            r@ == self.hostname_view() + path@,
    {
        self.hostname.clone().concat(path)
    }
}

} // verus!
