//! Where agent and proxy find the RSA crypto of a user: the agent has one for
//! all, the proxy one per user token, read from the user's key files.
use vstd::prelude::*;

use vstd::string::StringExecFns;

use crate::agent_config::AgentConfig;
use crate::crypto::{RsaCrypto, RsaCryptoFetcher};
use crate::error::PpaassError;
use crate::text::same_text;

verus! {

/// The agent's fetcher: every user token gets the agent's one crypto.
pub struct AgentRsaCryptoFetcher {
    rsa_crypto: RsaCrypto,
}

impl View for AgentRsaCryptoFetcher {
    type V = (Seq<char>, Seq<char>);

    closed spec fn view(&self) -> (Seq<char>, Seq<char>) {
        self.rsa_crypto@
    }
}

impl AgentRsaCryptoFetcher {
    /// The fetcher that hands out `rsa_crypto`.
    pub fn new(rsa_crypto: RsaCrypto) -> (res: Self)
        ensures
            res@ == rsa_crypto@,
    {
        AgentRsaCryptoFetcher { rsa_crypto }
    }

    /// The files the agent's keys are read from: the configured proxy public
    /// key file, else `ProxyPublicKey.pem`, and the configured agent private
    /// key file, else `AgentPrivateKey.pem`.
    pub fn key_files(configuration: &AgentConfig) -> (res: (String, String))
        ensures
            res.0@ == match configuration.proxy_public_key_file {
                Some(f) => f@,
                None => "ProxyPublicKey.pem"@,
            },
            res.1@ == match configuration.agent_private_key_file {
                Some(f) => f@,
                None => "AgentPrivateKey.pem"@,
            },
    {
        let public_key_file = match configuration.proxy_public_key_file() {
            Some(f) => f.clone(),
            None => "ProxyPublicKey.pem".to_string(),
        };
        let private_key_file = match configuration.agent_private_key_file() {
            Some(f) => f.clone(),
            None => "AgentPrivateKey.pem".to_string(),
        };
        (public_key_file, private_key_file)
    }
}

impl RsaCryptoFetcher for AgentRsaCryptoFetcher {
    /// The agent's crypto, whatever the token.
    open spec fn crypto_of(&self, user_token: Seq<char>) -> Option<(Seq<char>, Seq<char>)> {
        Some(self@)
    }

    /// The agent's crypto, whatever the token.
    fn fetch(&self, user_token: &str) -> (res: Result<Option<&RsaCrypto>, PpaassError>)
        ensures
            res matches Ok(Some(c)) && c@ == self@,
    {
        Ok(Some(&self.rsa_crypto))
    }
}

/// The proxy's fetcher: the crypto of each user, by user token.
pub struct ProxyRsaCryptoFetcher {
    cache: Vec<(String, RsaCrypto)>,
}

/// No user token stands twice in `entries`.
pub open spec fn tokens_unique(entries: Seq<(String, RsaCrypto)>) -> bool {
    forall|i: int, j: int| 0 <= i < j < entries.len() ==> entries[i].0@ != entries[j].0@
}

/// The crypto views of `entries`, by user token.
pub open spec fn spec_crypto_map(entries: Seq<(String, RsaCrypto)>) -> Map<Seq<char>, (Seq<char>, Seq<char>)>
    decreases entries.len(),
{
    if entries.len() == 0 {
        Map::empty()
    } else {
        let last = entries.last();
        spec_crypto_map(entries.drop_last()).insert(last.0@, last.1@)
    }
}

proof fn lemma_crypto_map_get(entries: Seq<(String, RsaCrypto)>, k: Seq<char>)
    requires
        tokens_unique(entries),
    ensures
        spec_crypto_map(entries).contains_key(k) <==> exists|i: int| 0 <= i < entries.len() && entries[i].0@ == k,
        forall|i: int| 0 <= i < entries.len() && #[trigger] entries[i].0@ == k ==> spec_crypto_map(entries)[k] == entries[i].1@,
    decreases entries.len(),
{
    if entries.len() > 0 {
        let init = entries.drop_last();
        assert(tokens_unique(init));
        lemma_crypto_map_get(init, k);
        let n = entries.len() - 1;
        if spec_crypto_map(entries).contains_key(k) && k != entries[n].0@ {
            let i = choose|i: int| 0 <= i < init.len() && init[i].0@ == k;
            assert(entries[i].0@ == k);
        }
        assert forall|i: int| 0 <= i < entries.len() && #[trigger] entries[i].0@ == k implies spec_crypto_map(
            entries,
        )[k] == entries[i].1@ by {
            if i < n {
                assert(init[i].0@ == k);
            }
        }
        if exists|i: int| 0 <= i < entries.len() && entries[i].0@ == k {
            let i = choose|i: int| 0 <= i < entries.len() && entries[i].0@ == k;
            if i < n {
                assert(init[i].0@ == k);
            }
        }
    }
}

/// The crypto view of the first entry of `entries` with the token `k`.
pub open spec fn first_crypto(entries: Seq<(String, RsaCrypto)>, k: Seq<char>) -> Option<(Seq<char>, Seq<char>)>
    decreases entries.len(),
{
    if entries.len() == 0 {
        None
    } else if entries[0].0@ == k {
        Some(entries[0].1@)
    } else {
        first_crypto(entries.drop_first(), k)
    }
}

/// The first entry with the token `k` stands at `i`, or none does when `i`
/// is the length.
proof fn lemma_first_crypto(entries: Seq<(String, RsaCrypto)>, k: Seq<char>, i: int)
    requires
        0 <= i <= entries.len(),
        forall|j: int| 0 <= j < i ==> entries[j].0@ != k,
        i < entries.len() ==> entries[i].0@ == k,
    ensures
        first_crypto(entries, k) == if i < entries.len() { Some(entries[i].1@) } else { None },
    decreases i,
{
    if i > 0 {
        let rest = entries.drop_first();
        assert forall|j: int| 0 <= j < i - 1 implies rest[j].0@ != k by {
            assert(rest[j] == entries[j + 1]);
        }
        if i < entries.len() {
            assert(rest[i - 1] == entries[i]);
        }
        lemma_first_crypto(rest, k, i - 1);
    }
}

impl View for ProxyRsaCryptoFetcher {
    type V = Map<Seq<char>, (Seq<char>, Seq<char>)>;

    closed spec fn view(&self) -> Map<Seq<char>, (Seq<char>, Seq<char>)> {
        spec_crypto_map(self.cache@)
    }
}

impl ProxyRsaCryptoFetcher {
    /// The fetcher's invariant: no user token twice.
    pub closed spec fn wf(&self) -> bool {
        tokens_unique(self.cache@)
    }

    /// A fetcher that knows no user.
    pub fn new() -> (res: Self)
        ensures
            res.wf(),
            res@ == Map::<Seq<char>, (Seq<char>, Seq<char>)>::empty(),
    {
        ProxyRsaCryptoFetcher { cache: Vec::new() }
    }

    /// The files a user's keys are read from: the root directory, the user
    /// token and `/AgentPublicKey.pem`, and the same with
    /// `/ProxyPrivateKey.pem` (nothing is put between the root and the token).
    pub fn key_files(rsa_root_dir: &str, user_token: &str) -> (res: (String, String))
        ensures
            res.0@ == rsa_root_dir@ + user_token@ + "/AgentPublicKey.pem"@,
            res.1@ == rsa_root_dir@ + user_token@ + "/ProxyPrivateKey.pem"@,
    {
        let mut public_key_file = rsa_root_dir.to_string();
        public_key_file.append(user_token);
        let mut private_key_file = public_key_file.clone();
        public_key_file.append("/AgentPublicKey.pem");
        private_key_file.append("/ProxyPrivateKey.pem");
        (public_key_file, private_key_file)
    }

    /// The position of `user_token` in the cache, if it is there.
    fn position(&self, user_token: &str) -> (res: Option<usize>)
        ensures
            match res {
                Some(i) => i < self.cache@.len() && self.cache@[i as int].0@ == user_token@ && forall|j: int|
                    0 <= j < i ==> self.cache@[j].0@ != user_token@,
                None => forall|i: int| 0 <= i < self.cache@.len() ==> self.cache@[i].0@ != user_token@,
            },
    {
        let mut i: usize = 0;
        while i < self.cache.len()
            invariant
                i <= self.cache@.len(),
                forall|k: int| 0 <= k < i ==> self.cache@[k].0@ != user_token@,
            decreases self.cache@.len() - i,
        {
            if same_text(self.cache[i].0.as_str(), user_token) {
                return Some(i);
            }
            i = i + 1;
        }
        None
    }

    /// Gives `user_token` the crypto `rsa_crypto`, in place of any it had.
    pub fn insert(&mut self, user_token: String, rsa_crypto: RsaCrypto)
        requires
            old(self).wf(),
        ensures
            final(self).wf(),
            final(self)@ == old(self)@.insert(user_token@, rsa_crypto@),
    {
        let ghost k = user_token@;
        let ghost v = rsa_crypto@;
        match self.position(user_token.as_str()) {
            Some(i) => {
                let ghost before = self.cache@;
                let removed = self.cache.remove(i);
                proof {
                    assert(tokens_unique(self.cache@));
                    assert forall|j: int| 0 <= j < self.cache@.len() implies self.cache@[j].0@ != k by {
                        if j < i {
                            assert(self.cache@[j] == before[j]);
                        } else {
                            assert(self.cache@[j] == before[j + 1]);
                        }
                    }
                    lemma_crypto_map_get(before, k);
                    lemma_crypto_map_get(self.cache@, k);
                    assert forall|t: Seq<char>| t != k implies (#[trigger] spec_crypto_map(self.cache@).contains_key(t))
                        == spec_crypto_map(before).contains_key(t) && (spec_crypto_map(before).contains_key(t)
                        ==> spec_crypto_map(self.cache@)[t] == spec_crypto_map(before)[t]) by {
                        lemma_crypto_map_get(before, t);
                        lemma_crypto_map_get(self.cache@, t);
                        if spec_crypto_map(before).contains_key(t) {
                            let a = choose|a: int| 0 <= a < before.len() && before[a].0@ == t;
                            if a < i {
                                assert(self.cache@[a] == before[a]);
                            } else {
                                assert(self.cache@[a - 1] == before[a]);
                            }
                        }
                        if spec_crypto_map(self.cache@).contains_key(t) {
                            let a = choose|a: int| 0 <= a < self.cache@.len() && self.cache@[a].0@ == t;
                            if a < i {
                                assert(self.cache@[a] == before[a]);
                            } else {
                                assert(self.cache@[a] == before[a + 1]);
                            }
                        }
                    }
                    assert(spec_crypto_map(self.cache@) =~= spec_crypto_map(before).remove(k));
                }
                self.cache.push((user_token, rsa_crypto));
                proof {
                    assert(self.cache@.drop_last() =~= before.remove(i as int));
                    assert(spec_crypto_map(self.cache@) =~= spec_crypto_map(before).insert(k, v));
                }
            },
            None => {
                let ghost before = self.cache@;
                self.cache.push((user_token, rsa_crypto));
                proof {
                    assert(self.cache@.drop_last() =~= before);
                }
            },
        }
    }
}

impl RsaCryptoFetcher for ProxyRsaCryptoFetcher {
    /// The crypto of the first entry with this token.
    closed spec fn crypto_of(&self, user_token: Seq<char>) -> Option<(Seq<char>, Seq<char>)> {
        first_crypto(self.cache@, user_token)
    }

    /// The crypto of the user with this token, if there is one.
    fn fetch(&self, user_token: &str) -> (res: Result<Option<&RsaCrypto>, PpaassError>)
        ensures
            self.wf() ==> match res {
                Ok(Some(c)) => self@.contains_key(user_token@) && self@[user_token@] == c@,
                Ok(None) => !self@.contains_key(user_token@),
                Err(_) => false,
            },
    {
        match self.position(user_token) {
            Some(i) => {
                proof {
                    lemma_first_crypto(self.cache@, user_token@, i as int);
                    if self.wf() {
                        lemma_crypto_map_get(self.cache@, user_token@);
                    }
                }
                Ok(Some(&self.cache[i].1))
            },
            None => {
                proof {
                    lemma_first_crypto(self.cache@, user_token@, self.cache@.len() as int);
                    if self.wf() {
                        lemma_crypto_map_get(self.cache@, user_token@);
                    }
                }
                Ok(None)
            },
        }
    }
}

} // verus!
