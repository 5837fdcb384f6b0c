use vstd::prelude::*;

verus! {

/// Credentials and connection settings of one account, with the access
/// token once it has been issued.
///
/// The token is either empty (not issued yet) or the bearer string that the
/// token endpoint handed out. No expiry is tracked.
#[derive(Debug, Clone)]
pub struct AccountConfig {
    pub id: String,
    pub real: bool,
    pub key: String,
    pub account: String,
    pub phone: String,
    pub url: String,
    pub ops: String,
    pub secret: String,
    pub token: String,
}

impl AccountConfig {
    /// Whether an access token is held: validity is "non-empty" alone.
    pub open spec fn token_issued(&self) -> bool {
        self.token@.len() > 0
    }

    /// A configuration whose every text field is empty, in simulation mode.
    pub fn new() -> (r: Self)
        ensures
            r.id@ == Seq::<char>::empty(),
            !r.real,
            r.key@ == Seq::<char>::empty(),
            r.account@ == Seq::<char>::empty(),
            r.phone@ == Seq::<char>::empty(),
            r.url@ == Seq::<char>::empty(),
            r.ops@ == Seq::<char>::empty(),
            r.secret@ == Seq::<char>::empty(),
            r.token@ == Seq::<char>::empty(),
    {
        AccountConfig {
            id: String::new(),
            real: false,
            key: String::new(),
            account: String::new(),
            phone: String::new(),
            url: String::new(),
            ops: String::new(),
            secret: String::new(),
            token: String::new(),
        }
    }

    pub fn is_real(&self) -> (r: bool)
        ensures
            r == self.real,
    {
        self.real
    }

    pub fn get_apikey(&self) -> (r: &str)
        ensures
            r@ == self.key@,
    {
        self.key.as_str()
    }

    pub fn get_secret(&self) -> (r: &str)
        ensures
            r@ == self.secret@,
    {
        self.secret.as_str()
    }

    pub fn get_url(&self) -> (r: String)
        ensures
            r@ == self.url@,
    {
        self.url.clone()
    }

    pub fn get_access_token(&self) -> (r: &str)
        ensures
            r@ == self.token@,
    {
        self.token.as_str()
    }

    pub fn get_account_no(&self) -> (r: &str)
        ensures
            r@ == self.account@,
    {
        self.account.as_str()
    }

    /// Replaces the token and leaves every other field as it was.
    pub fn set_access_token(&mut self, token: &str)
        ensures
            final(self).token@ == token@,
            final(self).id == old(self).id,
            final(self).real == old(self).real,
            final(self).key == old(self).key,
            final(self).account == old(self).account,
            final(self).phone == old(self).phone,
            final(self).url == old(self).url,
            final(self).ops == old(self).ops,
            final(self).secret == old(self).secret,
    {
        self.token = token.to_owned();
    }

    pub fn is_acces_token_valid(&self) -> (r: bool)
        ensures
            r == self.token_issued(),
    {
        !self.token.as_str().is_empty()
    }
}

} // verus!
