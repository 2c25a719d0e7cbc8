use vstd::bytes::*;
use vstd::prelude::*;
use crate::codec::{write_bytes, zeros};
use crate::types::{AccountKey, TokenId};

verus! {

/// Set where the fee is not zero.
pub const FLAG_HAS_FEE: u8 = 1;

/// Set where the transaction has a memo.
pub const FLAG_HAS_MEMO: u8 = 2;

/// Set where the record names a spender.
pub const FLAG_HAS_SPENDER: u8 = 4;

/// Set where the memo is longer than its field and is stored in full elsewhere.
pub const FLAG_MEMO_EXTENDED: u8 = 8;

/// What a log record says: its fields, with the numbers decoded.
pub struct TxRecord {
    pub op: u8,
    pub flags: u8,
    pub token_id: Seq<u8>,
    pub from_key: Seq<u8>,
    pub to_key: Seq<u8>,
    pub spender_key: Seq<u8>,
    pub amount: u128,
    pub fee: u128,
    pub timestamp: u64,
    pub memo: Seq<u8>,
    pub reserved: Seq<u8>,
}

impl TxRecord {
    /// Every field has the width that the record's layout gives it.
    pub open spec fn wf(self) -> bool {
        &&& self.token_id.len() == 32
        &&& self.from_key.len() == 32
        &&& self.to_key.len() == 32
        &&& self.spender_key.len() == 32
        &&& self.memo.len() == 32
        &&& self.reserved.len() == 54
    }
}

/// A record of the transaction log, 256 bytes when packed.
#[derive(Clone, Copy, Debug)]
pub struct StoredTxV1 {
    pub op: u8,
    pub flags: u8,
    pub token_id: [u8; 32],
    pub from_key: [u8; 32],
    pub to_key: [u8; 32],
    pub spender_key: [u8; 32],
    pub amount: [u8; 16],
    pub fee: [u8; 16],
    pub timestamp: [u8; 8],
    pub memo: [u8; 32],
    pub _reserved: [u8; 54],
}

impl View for StoredTxV1 {
    type V = TxRecord;

    open spec fn view(&self) -> TxRecord {
        TxRecord {
            op: self.op,
            flags: self.flags,
            token_id: self.token_id@,
            from_key: self.from_key@,
            to_key: self.to_key@,
            spender_key: self.spender_key@,
            amount: spec_u128_from_le_bytes(self.amount@),
            fee: spec_u128_from_le_bytes(self.fee@),
            timestamp: spec_u64_from_le_bytes(self.timestamp@),
            memo: self.memo@,
            reserved: self._reserved@,
        }
    }
}

/// The bytes of an optional memo.
pub open spec fn memo_bytes(memo: Option<&[u8]>) -> Option<Seq<u8>> {
    match memo {
        Some(m) => Some(m@),
        None => None,
    }
}

/// The fee bit: set where the fee is not zero.
pub open spec fn fee_flag(fee: u128) -> u8 {
    if fee > 0 {
        FLAG_HAS_FEE
    } else {
        0
    }
}

/// The memo bits: the memo bit where there is a memo, and the bit for an
/// extended memo where the memo is longer than the 32 bytes of its field.
pub open spec fn memo_flags(memo: Option<Seq<u8>>) -> u8 {
    match memo {
        Some(m) => if m.len() > 32 {
            FLAG_HAS_MEMO | FLAG_MEMO_EXTENDED
        } else {
            FLAG_HAS_MEMO
        },
        None => 0,
    }
}

/// The memo field of a record: the first 32 bytes of the memo, padded with
/// zeros; all zeros where there is no memo.
pub open spec fn inline_memo(memo: Option<Seq<u8>>) -> Seq<u8> {
    match memo {
        Some(m) => Seq::new(
            32,
            |i: int|
                if i < m.len() {
                    m[i]
                } else {
                    0u8
                },
        ),
        None => zeros(32),
    }
}

/// The record of an operation `op` with the given keys and amounts.
pub open spec fn record_of(
    op: u8,
    kind_flags: u8,
    token_id: Seq<u8>,
    from_key: Seq<u8>,
    to_key: Seq<u8>,
    spender_key: Seq<u8>,
    amount: u128,
    fee: u128,
    timestamp: u64,
    memo: Option<Seq<u8>>,
) -> TxRecord {
    TxRecord {
        op,
        flags: kind_flags | fee_flag(fee) | memo_flags(memo),
        token_id,
        from_key,
        to_key,
        spender_key,
        amount,
        fee,
        timestamp,
        memo: inline_memo(memo),
        reserved: zeros(54),
    }
}

/// The record of a transfer: operation 0.
pub open spec fn transfer_record(
    token_id: Seq<u8>,
    from_key: Seq<u8>,
    to_key: Seq<u8>,
    amount: u128,
    fee: u128,
    timestamp: u64,
    memo: Option<Seq<u8>>,
) -> TxRecord {
    record_of(0, 0, token_id, from_key, to_key, zeros(32), amount, fee, timestamp, memo)
}

/// The record of a mint: operation 1, no sender, no fee.
pub open spec fn mint_record(
    token_id: Seq<u8>,
    to_key: Seq<u8>,
    amount: u128,
    timestamp: u64,
    memo: Option<Seq<u8>>,
) -> TxRecord {
    record_of(1, 0, token_id, zeros(32), to_key, zeros(32), amount, 0, timestamp, memo)
}

/// The record of a burn: operation 2, no receiver, no fee.
pub open spec fn burn_record(
    token_id: Seq<u8>,
    from_key: Seq<u8>,
    amount: u128,
    timestamp: u64,
    memo: Option<Seq<u8>>,
) -> TxRecord {
    record_of(2, 0, token_id, from_key, zeros(32), zeros(32), amount, 0, timestamp, memo)
}

/// The record of an approval: operation 3, the owner as sender, no receiver.
pub open spec fn approve_record(
    token_id: Seq<u8>,
    owner_key: Seq<u8>,
    spender_key: Seq<u8>,
    amount: u128,
    fee: u128,
    timestamp: u64,
    memo: Option<Seq<u8>>,
) -> TxRecord {
    record_of(
        3,
        FLAG_HAS_SPENDER,
        token_id,
        owner_key,
        zeros(32),
        spender_key,
        amount,
        fee,
        timestamp,
        memo,
    )
}

/// The record of a transfer by a spender: operation 4.
pub open spec fn transfer_from_record(
    token_id: Seq<u8>,
    from_key: Seq<u8>,
    to_key: Seq<u8>,
    spender_key: Seq<u8>,
    amount: u128,
    fee: u128,
    timestamp: u64,
    memo: Option<Seq<u8>>,
) -> TxRecord {
    record_of(
        4,
        FLAG_HAS_SPENDER,
        token_id,
        from_key,
        to_key,
        spender_key,
        amount,
        fee,
        timestamp,
        memo,
    )
}

/// The 256 bytes of a record: operation, flags, token id, the three keys,
/// amount and fee (16 bytes each, least significant first), timestamp
/// (8 bytes, least significant first), memo field, reserved bytes.
pub open spec fn encode_record(r: TxRecord) -> Seq<u8> {
    seq![r.op, r.flags] + r.token_id + r.from_key + r.to_key + r.spender_key
        + spec_u128_to_le_bytes(r.amount) + spec_u128_to_le_bytes(r.fee) + spec_u64_to_le_bytes(
        r.timestamp,
    ) + r.memo + r.reserved
}

/// The record that 256 bytes hold.
pub open spec fn decode_record(b: Seq<u8>) -> TxRecord {
    TxRecord {
        op: b[0],
        flags: b[1],
        token_id: b.subrange(2, 34),
        from_key: b.subrange(34, 66),
        to_key: b.subrange(66, 98),
        spender_key: b.subrange(98, 130),
        amount: spec_u128_from_le_bytes(b.subrange(130, 146)),
        fee: spec_u128_from_le_bytes(b.subrange(146, 162)),
        timestamp: spec_u64_from_le_bytes(b.subrange(162, 170)),
        memo: b.subrange(170, 202),
        reserved: b.subrange(202, 256),
    }
}

/// A packed record has 256 bytes.
pub proof fn lemma_encode_len(r: TxRecord)
    requires
        r.wf(),
    ensures
        encode_record(r).len() == 256,
{
    lemma_auto_spec_u128_to_from_le_bytes();
    lemma_auto_spec_u64_to_from_le_bytes();
}

/// Unpacking a packed record gives the record back.
pub proof fn lemma_decode_encode(r: TxRecord)
    requires
        r.wf(),
    ensures
        decode_record(encode_record(r)) == r,
{
    lemma_auto_spec_u128_to_from_le_bytes();
    lemma_auto_spec_u64_to_from_le_bytes();
    let b = encode_record(r);
    assert(b.subrange(2, 34) =~= r.token_id);
    assert(b.subrange(34, 66) =~= r.from_key);
    assert(b.subrange(66, 98) =~= r.to_key);
    assert(b.subrange(98, 130) =~= r.spender_key);
    assert(b.subrange(130, 146) =~= spec_u128_to_le_bytes(r.amount));
    assert(b.subrange(146, 162) =~= spec_u128_to_le_bytes(r.fee));
    assert(b.subrange(162, 170) =~= spec_u64_to_le_bytes(r.timestamp));
    assert(b.subrange(170, 202) =~= r.memo);
    assert(b.subrange(202, 256) =~= r.reserved);
}

/// Packing what 256 bytes hold gives the bytes back.
pub proof fn lemma_encode_decode(b: Seq<u8>)
    requires
        b.len() == 256,
    ensures
        decode_record(b).wf(),
        encode_record(decode_record(b)) == b,
{
    lemma_auto_spec_u128_to_from_le_bytes();
    lemma_auto_spec_u64_to_from_le_bytes();
}

/// What the four flag tests say of a record that `record_of` describes.
pub proof fn lemma_record_flags(kind_flags: u8, fee: u128, memo: Option<Seq<u8>>)
    requires
        kind_flags == 0 || kind_flags == FLAG_HAS_SPENDER,
    ensures
        ((kind_flags | fee_flag(fee) | memo_flags(memo)) & FLAG_HAS_FEE != 0) == (fee > 0),
        ((kind_flags | fee_flag(fee) | memo_flags(memo)) & FLAG_HAS_MEMO != 0) == memo.is_some(),
        ((kind_flags | fee_flag(fee) | memo_flags(memo)) & FLAG_HAS_SPENDER != 0) == (kind_flags
            == FLAG_HAS_SPENDER),
        ((kind_flags | fee_flag(fee) | memo_flags(memo)) & FLAG_MEMO_EXTENDED != 0) == (
        memo.is_some() && memo.unwrap().len() > 32),
{
    let a = kind_flags;
    let b = fee_flag(fee);
    let c = memo_flags(memo);
    assert(2u8 | 8u8 == 10u8) by (bit_vector);
    assert(((a | b | c) & 1u8 != 0) == (b == 1)) by (bit_vector)
        requires
            a == 0 || a == 4,
            b == 0 || b == 1,
            c == 0 || c == 2 || c == 10,
    ;
    assert(((a | b | c) & 2u8 != 0) == (c != 0)) by (bit_vector)
        requires
            a == 0 || a == 4,
            b == 0 || b == 1,
            c == 0 || c == 2 || c == 10,
    ;
    assert(((a | b | c) & 4u8 != 0) == (a == 4)) by (bit_vector)
        requires
            a == 0 || a == 4,
            b == 0 || b == 1,
            c == 0 || c == 2 || c == 10,
    ;
    assert(((a | b | c) & 8u8 != 0) == (c == 10)) by (bit_vector)
        requires
            a == 0 || a == 4,
            b == 0 || b == 1,
            c == 0 || c == 2 || c == 10,
    ;
}

/// The 16 bytes of `x`, least significant first.
fn u128_le_array(x: u128) -> (out: [u8; 16])
    ensures
        out@ == spec_u128_to_le_bytes(x),
{
    let v = u128_to_le_bytes(x);
    proof {
        lemma_auto_spec_u128_to_from_le_bytes();
    }
    let mut out = [0u8; 16];
    write_bytes(&mut out, 0, v.as_slice());
    out
}

/// The 8 bytes of `x`, least significant first.
fn u64_le_array(x: u64) -> (out: [u8; 8])
    ensures
        out@ == spec_u64_to_le_bytes(x),
{
    let v = u64_to_le_bytes(x);
    proof {
        lemma_auto_spec_u64_to_from_le_bytes();
    }
    let mut out = [0u8; 8];
    write_bytes(&mut out, 0, v.as_slice());
    out
}

/// The memo field of a record.
fn memo_field(memo: Option<&[u8]>) -> (out: [u8; 32])
    ensures
        out@ == inline_memo(memo_bytes(memo)),
{
    let mut out = [0u8; 32];
    match memo {
        Some(m) => {
            let n: usize = if m.len() < 32 {
                m.len()
            } else {
                32
            };
            let mut i: usize = 0;
            while i < n
                invariant
                    i <= n,
                    n <= 32,
                    n <= m@.len(),
                    forall|j: int| 0 <= j < i ==> out@[j] == m@[j],
                    forall|j: int| i <= j < 32 ==> out@[j] == 0u8,
                decreases n - i,
            {
                out[i] = m[i];
                i += 1;
            }
        },
        None => {},
    }
    out
}

/// The memo bits of a record.
fn memo_bits(memo: Option<&[u8]>) -> (bits: u8)
    ensures
        bits == memo_flags(memo_bytes(memo)),
{
    match memo {
        Some(m) => if m.len() > 32 {
            FLAG_HAS_MEMO | FLAG_MEMO_EXTENDED
        } else {
            FLAG_HAS_MEMO
        },
        None => 0,
    }
}

impl StoredTxV1 {
    /// Builds a record from its parts.
    fn assemble(
        op: u8,
        kind_flags: u8,
        token_id: TokenId,
        from_key: AccountKey,
        to_key: AccountKey,
        spender_key: AccountKey,
        amount: u128,
        fee: u128,
        timestamp: u64,
        memo: Option<&[u8]>,
    ) -> (tx: Self)
        ensures
            tx@ == record_of(
                op,
                kind_flags,
                token_id@,
                from_key@,
                to_key@,
                spender_key@,
                amount,
                fee,
                timestamp,
                memo_bytes(memo),
            ),
            tx@.wf(),
    {
        let fee_bit: u8 = if fee > 0 {
            FLAG_HAS_FEE
        } else {
            0
        };
        let reserved = [0u8; 54];
        assert(reserved@ =~= zeros(54));
        let amount_le = u128_le_array(amount);
        let fee_le = u128_le_array(fee);
        let timestamp_le = u64_le_array(timestamp);
        let memo_bits = memo_bits(memo);
        let memo_le = memo_field(memo);
        proof {
            lemma_auto_spec_u128_to_from_le_bytes();
            lemma_auto_spec_u64_to_from_le_bytes();
        }
        let tx = StoredTxV1 {
            op,
            flags: kind_flags | fee_bit | memo_bits,
            token_id,
            from_key,
            to_key,
            spender_key,
            amount: amount_le,
            fee: fee_le,
            timestamp: timestamp_le,
            memo: memo_le,
            _reserved: reserved,
        };
        assert(spec_u128_to_le_bytes(amount).len() == 16);
        assert(spec_u128_to_le_bytes(fee).len() == 16);
        tx
    }

    pub fn new_transfer(
        token_id: TokenId,
        from_key: AccountKey,
        to_key: AccountKey,
        amount: u128,
        fee: u128,
        timestamp: u64,
        memo: Option<&[u8]>,
    ) -> (tx: Self)
        ensures
            tx@ == transfer_record(
                token_id@,
                from_key@,
                to_key@,
                amount,
                fee,
                timestamp,
                memo_bytes(memo),
            ),
    {
        let zero = [0u8; 32];
        assert(zero@ =~= zeros(32));
        Self::assemble(0, 0, token_id, from_key, to_key, zero, amount, fee, timestamp, memo)
    }

    pub fn new_mint(
        token_id: TokenId,
        to_key: AccountKey,
        amount: u128,
        timestamp: u64,
        memo: Option<&[u8]>,
    ) -> (tx: Self)
        ensures
            tx@ == mint_record(token_id@, to_key@, amount, timestamp, memo_bytes(memo)),
    {
        let zero = [0u8; 32];
        assert(zero@ =~= zeros(32));
        Self::assemble(1, 0, token_id, zero, to_key, zero, amount, 0, timestamp, memo)
    }

    pub fn new_burn(
        token_id: TokenId,
        from_key: AccountKey,
        amount: u128,
        timestamp: u64,
        memo: Option<&[u8]>,
    ) -> (tx: Self)
        ensures
            tx@ == burn_record(token_id@, from_key@, amount, timestamp, memo_bytes(memo)),
    {
        let zero = [0u8; 32];
        assert(zero@ =~= zeros(32));
        Self::assemble(2, 0, token_id, from_key, zero, zero, amount, 0, timestamp, memo)
    }

    pub fn new_approve(
        token_id: TokenId,
        owner_key: AccountKey,
        spender_key: AccountKey,
        amount: u128,
        fee: u128,
        timestamp: u64,
        memo: Option<&[u8]>,
    ) -> (tx: Self)
        ensures
            tx@ == approve_record(
                token_id@,
                owner_key@,
                spender_key@,
                amount,
                fee,
                timestamp,
                memo_bytes(memo),
            ),
    {
        let zero = [0u8; 32];
        assert(zero@ =~= zeros(32));
        Self::assemble(
            3,
            FLAG_HAS_SPENDER,
            token_id,
            owner_key,
            zero,
            spender_key,
            amount,
            fee,
            timestamp,
            memo,
        )
    }

    pub fn new_transfer_from(
        token_id: TokenId,
        from_key: AccountKey,
        to_key: AccountKey,
        spender_key: AccountKey,
        amount: u128,
        fee: u128,
        timestamp: u64,
        memo: Option<&[u8]>,
    ) -> (tx: Self)
        ensures
            tx@ == transfer_from_record(
                token_id@,
                from_key@,
                to_key@,
                spender_key@,
                amount,
                fee,
                timestamp,
                memo_bytes(memo),
            ),
    {
        Self::assemble(
            4,
            FLAG_HAS_SPENDER,
            token_id,
            from_key,
            to_key,
            spender_key,
            amount,
            fee,
            timestamp,
            memo,
        )
    }

    pub fn get_amount(&self) -> (r: u128)
        ensures
            r == self@.amount,
    {
        u128_from_le_bytes(self.amount.as_slice())
    }

    pub fn get_fee(&self) -> (r: u128)
        ensures
            r == self@.fee,
    {
        u128_from_le_bytes(self.fee.as_slice())
    }

    pub fn get_timestamp(&self) -> (r: u64)
        ensures
            r == self@.timestamp,
    {
        u64_from_le_bytes(self.timestamp.as_slice())
    }

    pub fn has_fee(&self) -> (r: bool)
        ensures
            r == (self@.flags & FLAG_HAS_FEE != 0),
    {
        self.flags & FLAG_HAS_FEE != 0
    }

    pub fn has_memo(&self) -> (r: bool)
        ensures
            r == (self@.flags & FLAG_HAS_MEMO != 0),
    {
        self.flags & FLAG_HAS_MEMO != 0
    }

    pub fn has_spender(&self) -> (r: bool)
        ensures
            r == (self@.flags & FLAG_HAS_SPENDER != 0),
    {
        self.flags & FLAG_HAS_SPENDER != 0
    }

    pub fn has_extended_memo(&self) -> (r: bool)
        ensures
            r == (self@.flags & FLAG_MEMO_EXTENDED != 0),
    {
        self.flags & FLAG_MEMO_EXTENDED != 0
    }

    /// Packs the record into its 256 bytes.
    pub fn to_bytes(&self) -> (buf: [u8; 256])
        ensures
            buf@ == encode_record(self@),
    {
        let mut buf = [0u8; 256];
        buf[0] = self.op;
        buf[1] = self.flags;
        write_bytes(&mut buf, 2, self.token_id.as_slice());
        write_bytes(&mut buf, 34, self.from_key.as_slice());
        write_bytes(&mut buf, 66, self.to_key.as_slice());
        write_bytes(&mut buf, 98, self.spender_key.as_slice());
        write_bytes(&mut buf, 130, self.amount.as_slice());
        write_bytes(&mut buf, 146, self.fee.as_slice());
        write_bytes(&mut buf, 162, self.timestamp.as_slice());
        write_bytes(&mut buf, 170, self.memo.as_slice());
        write_bytes(&mut buf, 202, self._reserved.as_slice());
        proof {
            lemma_auto_spec_u128_to_from_le_bytes();
            lemma_auto_spec_u64_to_from_le_bytes();
        }
        buf
    }

    /// Unpacks a record from its 256 bytes.
    pub fn from_bytes(buf: &[u8; 256]) -> (tx: Self)
        ensures
            tx@ == decode_record(buf@),
    {
        let mut tx = StoredTxV1 {
            op: buf[0],
            flags: buf[1],
            token_id: [0u8; 32],
            from_key: [0u8; 32],
            to_key: [0u8; 32],
            spender_key: [0u8; 32],
            amount: [0u8; 16],
            fee: [0u8; 16],
            timestamp: [0u8; 8],
            memo: [0u8; 32],
            _reserved: [0u8; 54],
        };
        tx.token_id = read_bytes::<32>(buf, 2);
        tx.from_key = read_bytes::<32>(buf, 34);
        tx.to_key = read_bytes::<32>(buf, 66);
        tx.spender_key = read_bytes::<32>(buf, 98);
        tx.amount = read_bytes::<16>(buf, 130);
        tx.fee = read_bytes::<16>(buf, 146);
        tx.timestamp = read_bytes::<8>(buf, 162);
        tx.memo = read_bytes::<32>(buf, 170);
        tx._reserved = read_bytes::<54>(buf, 202);
        tx
    }
}

/// The `N` bytes of a packed record that start at index `at`.
fn read_bytes<const N: usize>(buf: &[u8; 256], at: usize) -> (out: [u8; N])
    requires
        at + N <= 256,
    ensures
        out@ == buf@.subrange(at as int, at + N),
{
    let mut out = [0u8; N];
    let mut i: usize = 0;
    while i < N
        invariant
            i <= N,
            at + N <= 256,
            forall|j: int| 0 <= j < i ==> out@[j] == buf@[at + j],
        decreases N - i,
    {
        out[i] = buf[at + i];
        i += 1;
    }
    out
}

} // verus!
