use vstd::prelude::*;
use vstd::string::*;
use crate::codec::{
    numbered, numbered_text, sha256, sha256_digest, u64_be, u64_to_be_bytes, write_bytes, zeros,
};

pub mod constants;
pub mod memory_ids;

verus! {

/// The id of a token.
pub type TokenId = [u8; 32];

/// The key under which an account is known to the ledger.
pub type AccountKey = [u8; 32];

/// What an account is: the bytes of its owner's principal and, where it has
/// one, the bytes of its subaccount.
pub struct AccountView {
    pub owner: Seq<u8>,
    pub subaccount: Option<Seq<u8>>,
}

/// An account: a principal, given by its bytes, and an optional subaccount.
#[derive(Clone, Debug, PartialEq, Eq)]
pub struct Account {
    pub owner: Vec<u8>,
    pub subaccount: Option<Vec<u8>>,
}

impl View for Account {
    type V = AccountView;

    open spec fn view(&self) -> AccountView {
        AccountView {
            owner: self.owner@,
            subaccount: match self.subaccount {
                Some(s) => Some(s@),
                None => None,
            },
        }
    }
}

/// The bytes of "icrc151:account:v1".
pub open spec fn account_domain() -> Seq<u8> {
    seq![105u8, 99, 114, 99, 49, 53, 49, 58, 97, 99, 99, 111, 117, 110, 116, 58, 118, 49]
}

/// The bytes of "icrc151:balance:v1".
pub open spec fn balance_domain() -> Seq<u8> {
    seq![105u8, 99, 114, 99, 49, 53, 49, 58, 98, 97, 108, 97, 110, 99, 101, 58, 118, 49]
}

/// The bytes of "icrc151:allowance:v1".
pub open spec fn allowance_domain() -> Seq<u8> {
    seq![105u8, 99, 114, 99, 49, 53, 49, 58, 97, 108, 108, 111, 119, 97, 110, 99, 101, 58, 118, 49]
}

/// The bytes of "icrc151:token:v1".
pub open spec fn token_domain() -> Seq<u8> {
    seq![105u8, 99, 114, 99, 49, 53, 49, 58, 116, 111, 107, 101, 110, 58, 118, 49]
}

/// The bytes of "txl/".
pub open spec fn tx_index_prefix() -> Seq<u8> {
    seq![116u8, 120, 108, 47]
}

/// The bytes of "arc/".
pub open spec fn archive_prefix() -> Seq<u8> {
    seq![97u8, 114, 99, 47]
}

/// The subaccount's bytes, or 32 zero bytes where the account has none.
pub open spec fn subaccount_or_zero(a: AccountView) -> Seq<u8> {
    match a.subaccount {
        Some(s) => s,
        None => zeros(32),
    }
}

/// The key under which an account is known to the ledger: the digest of the
/// account domain, the owner's bytes and the subaccount (or 32 zero bytes).
pub open spec fn account_key(a: AccountView) -> Seq<u8> {
    sha256(account_domain() + a.owner + subaccount_or_zero(a))
}

/// The key of a balance entry.
pub open spec fn balance_key(token_id: Seq<u8>, account: Seq<u8>) -> Seq<u8> {
    sha256(balance_domain() + token_id + account)
}

/// The key of an allowance entry, and of its expiry entry.
pub open spec fn allowance_key(token_id: Seq<u8>, owner: Seq<u8>, spender: Seq<u8>) -> Seq<u8> {
    sha256(allowance_domain() + token_id + owner + spender)
}

/// The id of the token that a ledger creates with the given nonce.
pub open spec fn token_id_of(ledger_principal: Seq<u8>, nonce: u64) -> Seq<u8> {
    sha256(token_domain() + ledger_principal + u64_be(nonce))
}

/// The bytes of the anonymous principal.
pub open spec fn anonymous() -> Seq<u8> {
    seq![4u8]
}

/// The bytes of the management canister's principal: none.
pub open spec fn management_canister() -> Seq<u8> {
    Seq::empty()
}

/// The bytes of `candid::Principal::anonymous()`. Nothing is proved of this
/// function: the contract states what candid defines, a principal of the
/// single byte 4.
#[verifier::external_body]
pub(crate) fn anonymous_principal() -> (p: Vec<u8>)
    ensures
        p@ == anonymous(),
{
    candid::Principal::anonymous().as_slice().to_vec()
}

/// The bytes of `candid::Principal::management_canister()`. Nothing is proved
/// of this function: the contract states what candid defines, a principal of
/// no bytes.
#[verifier::external_body]
pub(crate) fn management_canister_principal() -> (p: Vec<u8>)
    ensures
        p@ == management_canister(),
{
    candid::Principal::management_canister().as_slice().to_vec()
}

/// The text form of a principal: what `candid::Principal::to_text` returns
/// for a principal of these bytes.
pub uninterp spec fn principal_text(principal: Seq<u8>) -> Seq<char>;

/// The text form of a principal, by `candid::Principal::to_text`. Nothing is
/// proved of this function: the contract only gives the text its name.
#[verifier::external_body]
pub(crate) fn principal_to_text(principal: &[u8]) -> (text: String)
    requires
        principal@.len() <= 29,
    ensures
        text@ == principal_text(principal@),
{
    candid::Principal::from_slice(principal).to_text()
}

/// How a principal is printed for debugging: what the `Debug` formatter
/// prints for a `candid::Principal` of these bytes.
pub uninterp spec fn principal_debug_text(principal: Seq<u8>) -> Seq<char>;

/// A principal as the `Debug` formatter prints a `candid::Principal`.
/// Nothing is proved of this function: the contract only gives the text its
/// name.
#[verifier::external_body]
pub(crate) fn principal_to_debug_text(principal: &[u8]) -> (text: String)
    requires
        principal@.len() <= 29,
    ensures
        text@ == principal_debug_text(principal@),
{
    format!("{:?}", candid::Principal::from_slice(principal))
}

impl Account {
    /// The key under which the account is known to the ledger.
    pub fn to_key(&self) -> (key: AccountKey)
        ensures
            key@ == account_key(self@),
    {
        let tag: [u8; 18] = [105u8, 99, 114, 99, 49, 53, 49, 58, 97, 99, 99, 111, 117, 110, 116, 58, 118, 49];
        let mut buf: Vec<u8> = Vec::new();
        buf.extend_from_slice(tag.as_slice());
        buf.extend_from_slice(self.owner.as_slice());
        match &self.subaccount {
            Some(sub) => {
                buf.extend_from_slice(sub.as_slice());
            },
            None => {
                let zero = [0u8; 32];
                buf.extend_from_slice(zero.as_slice());
            },
        }
        assert(buf@ =~= account_domain() + self@.owner + subaccount_or_zero(self@));
        sha256_digest(buf.as_slice())
    }

    /// Whether two accounts have the same owner and the same subaccount.
    pub fn same_as(&self, other: &Account) -> (r: bool)
        ensures
            r == (self@ == other@),
    {
        if !bytes_equal(self.owner.as_slice(), other.owner.as_slice()) {
            return false;
        }
        match (&self.subaccount, &other.subaccount) {
            (Some(a), Some(b)) => bytes_equal(a.as_slice(), b.as_slice()),
            (None, None) => true,
            _ => false,
        }
    }

    /// A copy of the account.
    pub fn duplicate(&self) -> (r: Account)
        ensures
            r@ == self@,
    {
        Account {
            owner: copy_bytes(self.owner.as_slice()),
            subaccount: match &self.subaccount {
                Some(s) => Some(copy_bytes(s.as_slice())),
                None => None,
            },
        }
    }
}

/// Whether two byte strings are equal.
pub fn bytes_equal(a: &[u8], b: &[u8]) -> (r: bool)
    ensures
        r == (a@ == b@),
{
    if a.len() != b.len() {
        return false;
    }
    let mut i: usize = 0;
    while i < a.len()
        invariant
            i <= a@.len(),
            a@.len() == b@.len(),
            forall|j: int| 0 <= j < i ==> a@[j] == b@[j],
        decreases a@.len() - i,
    {
        if a[i] != b[i] {
            return false;
        }
        i += 1;
    }
    assert(a@ =~= b@);
    true
}

/// A vector with the bytes of `a`.
pub fn copy_bytes(a: &[u8]) -> (r: Vec<u8>)
    ensures
        r@ == a@,
{
    let mut out: Vec<u8> = Vec::new();
    out.extend_from_slice(a);
    out
}

/// A principal in its stored form: its length and its bytes, padded with
/// zeros to 29.
#[derive(Clone, Copy, Debug, PartialEq, Eq, PartialOrd, Ord)]
pub struct StoredPrincipal {
    pub len: u8,
    pub bytes: [u8; 29],
}

impl StoredPrincipal {
    /// Whether the length is one that a stored principal may have.
    pub open spec fn valid(&self) -> bool {
        1 <= self.len <= 29
    }

    /// The principal's bytes, without the padding.
    pub open spec fn principal(&self) -> Seq<u8> {
        self.bytes@.subrange(0, self.len as int)
    }

    /// The 30 bytes that are stored: the length, then the padded bytes.
    pub open spec fn blob(&self) -> Seq<u8> {
        seq![self.len] + self.bytes@
    }

    /// Stores a principal given by its bytes. A principal of no bytes, or of
    /// more than 29, is refused.
    pub fn from_principal(p: &[u8]) -> (r: Result<Self, String>)
        ensures
            match r {
                Ok(s) => 1 <= p@.len() <= 29 && s.len == p@.len() && s.bytes@ == p@ + zeros(
                    (29 - p@.len()) as nat,
                ),
                Err(msg) => (p@.len() == 0 || p@.len() > 29) && msg@ == numbered_text(
                    "Invalid principal length: "@,
                    p@.len() as u128,
                    ""@,
                ),
            },
    {
        if p.len() == 0 || p.len() > 29 {
            return Err(numbered("Invalid principal length: ", p.len() as u128, ""));
        }
        let mut bytes = [0u8; 29];
        write_bytes(&mut bytes, 0, p);
        Ok(StoredPrincipal { len: p.len() as u8, bytes })
    }

    /// The bytes of the principal that was stored. A stored length of 0, or
    /// of more than 29, is refused.
    pub fn to_principal(&self) -> (r: Result<Vec<u8>, String>)
        ensures
            match r {
                Ok(p) => self.valid() && p@ == self.principal(),
                Err(msg) => !self.valid() && msg@ == numbered_text(
                    "Invalid stored principal length: "@,
                    self.len as u128,
                    ""@,
                ),
            },
    {
        if self.len == 0 || self.len > 29 {
            return Err(numbered("Invalid stored principal length: ", self.len as u128, ""));
        }
        let mut out: Vec<u8> = Vec::new();
        let n = self.len as usize;
        let mut i: usize = 0;
        while i < n
            invariant
                i <= n,
                n <= 29,
                out@.len() == i,
                forall|j: int| 0 <= j < i ==> out@[j] == self.bytes@[j],
            decreases n - i,
        {
            out.push(self.bytes[i]);
            i += 1;
        }
        Ok(out)
    }

    /// The stored form as 30 bytes: the length, then the 29 padded bytes.
    pub fn to_bytes(&self) -> (buf: [u8; 30])
        ensures
            buf@ == self.blob(),
    {
        let mut buf = [0u8; 30];
        buf[0] = self.len;
        write_bytes(&mut buf, 1, self.bytes.as_slice());
        buf
    }

    /// Reads the stored form back from its 30 bytes.
    pub fn from_bytes(buf: &[u8; 30]) -> (s: Self)
        ensures
            s.len == buf@[0],
            s.bytes@ == buf@.subrange(1, 30),
            s.blob() == buf@,
    {
        let mut bytes = [0u8; 29];
        let mut i: usize = 0;
        while i < 29
            invariant
                i <= 29,
                forall|j: int| 0 <= j < i ==> bytes@[j] == buf@[j + 1],
            decreases 29 - i,
        {
            bytes[i] = buf[i + 1];
            i += 1;
        }
        let s = StoredPrincipal { len: buf[0], bytes };
        s
    }
}

/// The key of a token's transaction in an index: "txl/", the token id, the index.
pub fn encode_tx_index_key(token_id: TokenId, local_index: u64) -> (key: [u8; 44])
    ensures
        key@ == tx_index_prefix() + token_id@ + u64_be(local_index),
{
    let prefix: [u8; 4] = [116u8, 120, 108, 47];
    let be = u64_to_be_bytes(local_index);
    proof {
        crate::codec::lemma_u64_be_roundtrip(local_index);
    }
    let mut key = [0u8; 44];
    write_bytes(&mut key, 0, prefix.as_slice());
    write_bytes(&mut key, 4, token_id.as_slice());
    write_bytes(&mut key, 36, be.as_slice());
    key
}

/// The key of an archive: "arc/", then the index at which it starts.
pub fn encode_archive_key(start_index: u64) -> (key: [u8; 12])
    ensures
        key@ == archive_prefix() + u64_be(start_index),
{
    let prefix: [u8; 4] = [97u8, 114, 99, 47];
    let be = u64_to_be_bytes(start_index);
    proof {
        crate::codec::lemma_u64_be_roundtrip(start_index);
    }
    let mut key = [0u8; 12];
    write_bytes(&mut key, 0, prefix.as_slice());
    write_bytes(&mut key, 4, be.as_slice());
    key
}

/// The token id followed by the account key.
pub fn encode_token_account_key(token_id: TokenId, account_key: AccountKey) -> (key: [u8; 64])
    ensures
        key@ == token_id@ + account_key@,
{
    let mut key = [0u8; 64];
    write_bytes(&mut key, 0, token_id.as_slice());
    write_bytes(&mut key, 32, account_key.as_slice());
    key
}

/// The account key followed by the token id.
pub fn encode_account_token_key(account_key: AccountKey, token_id: TokenId) -> (key: [u8; 64])
    ensures
        key@ == account_key@ + token_id@,
{
    let mut key = [0u8; 64];
    write_bytes(&mut key, 0, account_key.as_slice());
    write_bytes(&mut key, 32, token_id.as_slice());
    key
}

/// The time of expiry followed by the allowance key.
pub fn encode_allowance_expiry_key(expires_at: u64, allowance_key: [u8; 32]) -> (key: [u8; 40])
    ensures
        key@ == u64_be(expires_at) + allowance_key@,
{
    let be = u64_to_be_bytes(expires_at);
    proof {
        crate::codec::lemma_u64_be_roundtrip(expires_at);
    }
    let mut key = [0u8; 40];
    write_bytes(&mut key, 0, be.as_slice());
    write_bytes(&mut key, 8, allowance_key.as_slice());
    key
}

/// The key of a balance entry.
pub fn hash_balance_key(token_id: TokenId, account_key: AccountKey) -> (key: [u8; 32])
    ensures
        key@ == balance_key(token_id@, account_key@),
{
    let tag: [u8; 18] = [105u8, 99, 114, 99, 49, 53, 49, 58, 98, 97, 108, 97, 110, 99, 101, 58, 118, 49];
    let mut buf: Vec<u8> = Vec::new();
    buf.extend_from_slice(tag.as_slice());
    buf.extend_from_slice(token_id.as_slice());
    buf.extend_from_slice(account_key.as_slice());
    assert(buf@ =~= balance_domain() + token_id@ + account_key@);
    sha256_digest(buf.as_slice())
}

/// The key of an allowance entry, and of its expiry entry.
pub fn hash_allowance_key(token_id: TokenId, owner_key: AccountKey, spender_key: AccountKey) -> (key: [u8; 32])
    ensures
        key@ == allowance_key(token_id@, owner_key@, spender_key@),
{
    let tag: [u8; 20] = [105u8, 99, 114, 99, 49, 53, 49, 58, 97, 108, 108, 111, 119, 97, 110, 99, 101, 58, 118, 49];
    let mut buf: Vec<u8> = Vec::new();
    buf.extend_from_slice(tag.as_slice());
    buf.extend_from_slice(token_id.as_slice());
    buf.extend_from_slice(owner_key.as_slice());
    buf.extend_from_slice(spender_key.as_slice());
    assert(buf@ =~= allowance_domain() + token_id@ + owner_key@ + spender_key@);
    sha256_digest(buf.as_slice())
}

/// The id of a new token: the digest of the token domain, the ledger's
/// principal and the nonce, most significant byte first.
pub fn derive_token_id(ledger_principal: &[u8], nonce: u64) -> (id: TokenId)
    ensures
        id@ == token_id_of(ledger_principal@, nonce),
{
    let tag: [u8; 16] = [105u8, 99, 114, 99, 49, 53, 49, 58, 116, 111, 107, 101, 110, 58, 118, 49];
    let be = u64_to_be_bytes(nonce);
    let mut buf: Vec<u8> = Vec::new();
    buf.extend_from_slice(tag.as_slice());
    buf.extend_from_slice(ledger_principal);
    buf.extend_from_slice(be.as_slice());
    assert(buf@ =~= token_domain() + ledger_principal@ + u64_be(nonce));
    sha256_digest(buf.as_slice())
}

/// What a token's stored metadata is.
pub struct StoredTokenMetadataView {
    pub name: Seq<char>,
    pub symbol: Seq<char>,
    pub decimals: u8,
    pub total_supply: u128,
    pub fee: u128,
    pub fee_recipient: AccountView,
    pub logo: Option<Seq<char>>,
    pub description: Option<Seq<char>>,
    pub created_at: u64,
    pub controller: Seq<u8>,
}

/// A token's metadata as the registry stores it.
#[derive(Clone, Debug)]
pub struct StoredTokenMetadata {
    pub name: String,
    pub symbol: String,
    pub decimals: u8,
    pub total_supply: u128,
    pub fee: u128,
    pub fee_recipient: Account,
    pub logo: Option<String>,
    pub description: Option<String>,
    pub created_at: u64,
    pub controller: Vec<u8>,
}

impl View for StoredTokenMetadata {
    type V = StoredTokenMetadataView;

    open spec fn view(&self) -> StoredTokenMetadataView {
        StoredTokenMetadataView {
            name: self.name@,
            symbol: self.symbol@,
            decimals: self.decimals,
            total_supply: self.total_supply,
            fee: self.fee,
            fee_recipient: self.fee_recipient@,
            logo: match self.logo {
                Some(s) => Some(s@),
                None => None,
            },
            description: match self.description {
                Some(s) => Some(s@),
                None => None,
            },
            created_at: self.created_at,
            controller: self.controller@,
        }
    }
}

} // verus!
