//! Deterministic, versioned byte encoding of transfer operations: the
//! signed payload. Fixed-length numeric fields are 32-byte big-endian
//! buffers; each variable-length optional field is a 32-byte big-endian
//! length prefix followed by the raw bytes, and an absent field is a
//! zero-length prefix with no payload. The field order is fixed per
//! operation kind and is itself part of the protocol.

use vstd::prelude::*;
use vstd::string::StrSliceExecFns;
use vstd::utf8::encode_utf8;
use crate::bytes::{
    append_bytes, be32_of, be_val, lemma_be_val_all_zero, lemma_be_val_be32_of,
    lemma_be_val_byte_lower, lemma_be_val_leading_zeros, lemma_pow256_8, lemma_pow256_monotone,
    lemma_pow256_positive, padded_32, pow256, to_32_bytes, u128_to_bytes, usize_to_bytes,
};
use crate::hex::opt_bytes_view;
use crate::merkle::Data;

verus! {

/// The encoding of one optional variable-length field: a 32-byte
/// big-endian length prefix, then the bytes; an absent field is a
/// zero-length prefix alone.
pub open spec fn enc_opt_field(f: Option<Seq<u8>>) -> Seq<u8> {
    match f {
        None => be32_of(0),
        Some(b) => be32_of(b.len()) + b,
    }
}

/// The concatenated encoding of a fixed-order field list.
pub open spec fn enc_fields(fields: Seq<Option<Seq<u8>>>) -> Seq<u8>
    decreases fields.len(),
{
    if fields.len() == 0 {
        Seq::<u8>::empty()
    } else {
        enc_opt_field(fields.first()) + enc_fields(fields.drop_first())
    }
}

/// Reads one optional field at `pos`: the decoded field and the position
/// after it, or nothing when the data is too short for the prefix or the
/// announced length. A zero length reads as the absent field.
pub open spec fn dec_opt_field(data: Seq<u8>, pos: int) -> Option<(Option<Seq<u8>>, int)> {
    if pos + 32 <= data.len() {
        let l = be_val(data.subrange(pos, pos + 32)) as int;
        if l == 0 {
            Some((None, pos + 32))
        } else if pos + 32 + l <= data.len() {
            Some((Some(data.subrange(pos + 32, pos + 32 + l)), pos + 32 + l))
        } else {
            None
        }
    } else {
        None
    }
}

/// Reads `n` optional fields in order starting at `pos`.
pub open spec fn dec_fields(data: Seq<u8>, pos: int, n: nat) -> Option<
    (Seq<Option<Seq<u8>>>, int),
>
    decreases n,
{
    if n == 0 {
        Some((Seq::<Option<Seq<u8>>>::empty(), pos))
    } else {
        match dec_opt_field(data, pos) {
            Some((f, p2)) => match dec_fields(data, p2, (n - 1) as nat) {
                Some((fs, p3)) => Some((seq![f] + fs, p3)),
                None => None,
            },
            None => None,
        }
    }
}

/// A field value fit to round-trip: an absent field, or a non-empty
/// buffer whose length fits the 32-byte prefix. A present empty buffer
/// encodes exactly like an absent field and reads back as absent.
pub open spec fn round_trip_field(f: Option<Seq<u8>>) -> bool {
    match f {
        None => true,
        Some(b) => 0 < b.len() < pow256(32),
    }
}

/// Decoding one encoded field out of any surrounding data recovers the
/// field and lands just after it.
pub proof fn lemma_field_round_trip(f: Option<Seq<u8>>, prefix: Seq<u8>, rest: Seq<u8>)
    requires
        round_trip_field(f),
    ensures
        dec_opt_field(prefix + enc_opt_field(f) + rest, prefix.len() as int) == Some(
            (f, prefix.len() + enc_opt_field(f).len() as int),
        ),
{
    let data = prefix + enc_opt_field(f) + rest;
    let pos = prefix.len() as int;
    match f {
        None => {
            assert(data.subrange(pos, pos + 32) =~= be32_of(0));
            lemma_pow256_positive(32);
            lemma_be_val_be32_of(0);
        },
        Some(b) => {
            let l = b.len() as int;
            assert(data.subrange(pos, pos + 32) =~= be32_of(b.len()));
            lemma_be_val_be32_of(b.len());
            assert(data.subrange(pos + 32, pos + 32 + l) =~= b);
        },
    }
}

/// Decoding an encoded field list out of any surrounding data recovers
/// every field in order.
pub proof fn lemma_fields_round_trip(fields: Seq<Option<Seq<u8>>>, prefix: Seq<u8>, rest: Seq<u8>)
    requires
        forall|i: int| 0 <= i < fields.len() ==> round_trip_field(#[trigger] fields[i]),
    ensures
        dec_fields(prefix + enc_fields(fields) + rest, prefix.len() as int, fields.len()) == Some(
            (fields, prefix.len() + enc_fields(fields).len() as int),
        ),
    decreases fields.len(),
{
    if fields.len() == 0 {
        assert(prefix + enc_fields(fields) + rest =~= prefix + rest);
        assert(fields =~= Seq::<Option<Seq<u8>>>::empty());
    } else {
        let f = fields.first();
        let fs = fields.drop_first();
        let ef = enc_opt_field(f);
        let efs = enc_fields(fs);
        assert(enc_fields(fields) == ef + efs);
        let data = prefix + enc_fields(fields) + rest;
        assert(data =~= prefix + ef + (efs + rest));
        lemma_field_round_trip(f, prefix, efs + rest);
        assert(data =~= (prefix + ef) + efs + rest);
        lemma_fields_round_trip(fs, prefix + ef, rest);
        assert(dec_opt_field(data, prefix.len() as int) == Some(
            (f, prefix.len() + ef.len() as int),
        ));
        assert((prefix + ef).len() == prefix.len() + ef.len());
        assert(seq![f] + fs =~= fields);
        assert(prefix.len() + enc_fields(fields).len() == (prefix + ef).len() + efs.len());
    }
}

/// Appends the encoding of one optional field.
pub fn encode_opt_field(f: &Option<Vec<u8>>, out: &mut Vec<u8>)
    ensures
        final(out)@ == old(out)@ + enc_opt_field(opt_bytes_view(*f)),
{
    match f {
        None => {
            let zero_length: Vec<u8> = usize_to_bytes(0);
            append_bytes(out, zero_length.as_slice());
        },
        Some(b) => {
            let length: Vec<u8> = usize_to_bytes(b.len());
            append_bytes(out, length.as_slice());
            append_bytes(out, b.as_slice());
            proof {
                assert(out@ =~= old(out)@ + enc_opt_field(opt_bytes_view(*f)));
            }
        },
    }
}


/// Reads one length-prefixed optional field at `pos`, exactly as
/// `dec_opt_field` describes.
pub fn decode_opt_field(data: &Vec<u8>, pos: usize) -> (r: Option<(Option<Vec<u8>>, usize)>)
    requires
        pos <= data@.len(),
    ensures
        match r {
            Some((f, p)) => dec_opt_field(data@, pos as int) == Some(
                (opt_bytes_view(f), p as int),
            ),
            None => dec_opt_field(data@, pos as int) is None,
        },
{
    let n: usize = data.len();
    if n - pos < 32 {
        return None;
    }
    let ghost lseq: Seq<u8> = data@.subrange(pos as int, pos + 32);
    // A non-zero byte among the first 24 announces a length beyond any
    // buffer this machine can hold.
    let mut z: usize = 0;
    while z < 24
        invariant
            data@.len() == n,
            pos + 32 <= n,
            z <= 24,
            lseq == data@.subrange(pos as int, pos + 32),
            forall|j: int| 0 <= j < z ==> lseq[j] == 0u8,
        decreases 24 - z,
    {
        if data[pos + z] != 0 {
            proof {
                lemma_be_val_byte_lower(lseq, z as int);
                assert(lseq[z as int] >= 1);
                assert(lseq[z as int] * pow256((31 - z) as nat) >= 1 * pow256((31 - z) as nat))
                    by (nonlinear_arith)
                    requires
                        lseq[z as int] >= 1,
                ;
                lemma_pow256_monotone(8, (31 - z) as nat);
                assert(be_val(lseq) >= pow256(8));
                lemma_pow256_8();
            }
            return None;
        }
        z += 1;
    }
    // Fold the last eight bytes of the prefix into the length.
    let mut l: u64 = 0;
    let mut j: usize = 0;
    proof {
        lemma_be_val_leading_zeros(lseq, 24);
        assert(lseq.skip(24).subrange(0, 0) =~= Seq::<u8>::empty());
        lemma_be_val_all_zero(Seq::<u8>::empty());
    }
    while j < 8
        invariant
            data@.len() == n,
            pos + 32 <= n,
            j <= 8,
            lseq == data@.subrange(pos as int, pos + 32),
            be_val(lseq) == be_val(lseq.skip(24)),
            l as nat == be_val(lseq.skip(24).subrange(0, j as int)),
            (l as nat) < pow256(j as nat),
        decreases 8 - j,
    {
        let b: u8 = data[pos + 24 + j];
        proof {
            assert(lseq.skip(24).subrange(0, j + 1).drop_last() =~= lseq.skip(24).subrange(
                0,
                j as int,
            ));
            assert(lseq.skip(24).subrange(0, j + 1).last() == b);
            assert((l as nat) * 256 + b < pow256(j as nat) * 256) by (nonlinear_arith)
                requires
                    (l as nat) < pow256(j as nat),
                    b < 256,
            ;
            assert(pow256((j + 1) as nat) == 256 * pow256(j as nat));
            lemma_pow256_monotone((j + 1) as nat, 8);
            lemma_pow256_8();
            assert((l as nat) * 256 + b < 0x1_0000_0000_0000_0000);
        }
        l = l * 256 + (b as u64);
        j += 1;
    }
    proof {
        assert(lseq.skip(24).subrange(0, 8) =~= lseq.skip(24));
        assert(l as nat == be_val(lseq));
    }
    if l == 0 {
        return Some((None, pos + 32));
    }
    let avail: usize = n - pos - 32;
    if l > (avail as u64) {
        return None;
    }
    let len: usize = l as usize;
    let mut field: Vec<u8> = Vec::new();
    let mut i: usize = 0;
    while i < len
        invariant
            data@.len() == n,
            pos + 32 + len <= n,
            i <= len,
            field@.len() == i,
            forall|j: int| 0 <= j < i ==> field@[j] == data@[pos + 32 + j],
        decreases len - i,
    {
        field.push(data[pos + 32 + i]);
        i += 1;
    }
    proof {
        assert(field@ =~= data@.subrange(pos + 32, pos + 32 + len as int));
    }
    Some((Some(field), pos + 32 + len))
}


/// The UTF-8 bytes of an optional identity or text field.
pub open spec fn opt_utf8(o: Option<String>) -> Option<Seq<u8>> {
    match o {
        Some(s) => Some(encode_utf8(s@)),
        None => None,
    }
}

/// The zero-padded 32-byte form of an optional instance-id text.
pub open spec fn opt_padded_utf8(o: Option<String>) -> Option<Seq<u8>> {
    match o {
        Some(s) => Some(padded_32(encode_utf8(s@))),
        None => None,
    }
}

/// The 32-byte big-endian buffer of an optional amount.
pub open spec fn opt_amount_bytes(o: Option<u128>) -> Option<Seq<u8>> {
    match o {
        Some(a) => Some(be32_of(a as nat)),
        None => None,
    }
}

/// A transfer of a fungible or non-fungible asset, with the metadata a
/// minted copy would need. Absent fields depend on the asset kind.
#[derive(Clone, Debug)]
pub struct TransferFullMetaOperation {
    /// Token identity; absent for the native asset.
    pub token: Option<String>,
    /// Instance id; absent for native and fungible assets.
    pub token_id_to: Option<String>,
    pub amount: Option<u128>,
    pub title: Option<String>,
    pub media_url: Option<String>,
    /// Decoded media-hash bytes.
    pub media_hash: Option<Vec<u8>>,
}

impl TransferFullMetaOperation {
    /// The six optional fields in their fixed protocol order.
    pub open spec fn field_list(&self) -> Seq<Option<Seq<u8>>> {
        seq![
            opt_utf8(self.token),
            opt_utf8(self.title),
            opt_padded_utf8(self.token_id_to),
            opt_amount_bytes(self.amount),
            opt_utf8(self.media_url),
            opt_bytes_view(self.media_hash),
        ]
    }

    pub fn new_ft_transfer(token: String, amount: u128) -> (r: Self)
        ensures
            r.token == Some(token),
            r.token_id_to is None,
            r.amount == Some(amount),
            r.title is None,
            r.media_url is None,
            r.media_hash is None,
    {
        TransferFullMetaOperation {
            token: Some(token),
            token_id_to: None,
            amount: Some(amount),
            title: None,
            media_url: None,
            media_hash: None,
        }
    }

    pub fn new_nft_transfer(
        token_id: String,
        token: Option<String>,
        title: String,
        media_url: String,
        media_hash: Vec<u8>,
    ) -> (r: Self)
        ensures
            r.token == token,
            r.token_id_to == Some(token_id),
            r.amount is None,
            r.title == Some(title),
            r.media_url == Some(media_url),
            r.media_hash == Some(media_hash),
    {
        TransferFullMetaOperation {
            token,
            token_id_to: Some(token_id),
            title: Some(title),
            amount: None,
            media_url: Some(media_url),
            media_hash: Some(media_hash),
        }
    }
}

impl Data for TransferFullMetaOperation {
    /// Token, title, padded instance id, amount, media URL and media
    /// hash, each length-prefixed, in this order.
    open spec fn data_spec(&self) -> Seq<u8> {
        enc_opt_field(opt_utf8(self.token)) + enc_opt_field(opt_utf8(self.title)) + enc_opt_field(
            opt_padded_utf8(self.token_id_to),
        ) + enc_opt_field(opt_amount_bytes(self.amount)) + enc_opt_field(
            opt_utf8(self.media_url),
        ) + enc_opt_field(opt_bytes_view(self.media_hash))
    }

    fn get_data(&self) -> (r: Vec<u8>)
        ensures
            r@ == self.data_spec(),
    {
        let mut data: Vec<u8> = Vec::new();
        let token_bytes: Option<Vec<u8>> = match &self.token {
            Some(s) => Some(s.as_str().as_bytes_vec()),
            None => None,
        };
        encode_opt_field(&token_bytes, &mut data);
        let title_bytes: Option<Vec<u8>> = match &self.title {
            Some(s) => Some(s.as_str().as_bytes_vec()),
            None => None,
        };
        encode_opt_field(&title_bytes, &mut data);
        let id_bytes: Option<Vec<u8>> = match &self.token_id_to {
            Some(s) => {
                let raw: Vec<u8> = s.as_str().as_bytes_vec();
                Some(to_32_bytes(raw.as_slice()))
            },
            None => None,
        };
        encode_opt_field(&id_bytes, &mut data);
        let amount_bytes: Option<Vec<u8>> = match &self.amount {
            Some(a) => Some(u128_to_bytes(*a)),
            None => None,
        };
        encode_opt_field(&amount_bytes, &mut data);
        let url_bytes: Option<Vec<u8>> = match &self.media_url {
            Some(s) => Some(s.as_str().as_bytes_vec()),
            None => None,
        };
        encode_opt_field(&url_bytes, &mut data);
        encode_opt_field(&self.media_hash, &mut data);
        proof {
            assert(data@ =~= self.data_spec());
        }
        data
    }
}

/// A transfer of the chain's native asset: the amount alone.
#[derive(Clone, Debug)]
pub struct TransferOperation {
    pub amount: u128,
}

impl TransferOperation {
    pub fn new_native_transfer(amount: u128) -> (r: Self)
        ensures
            r.amount == amount,
    {
        TransferOperation { amount }
    }
}

impl Data for TransferOperation {
    /// The amount as one 32-byte big-endian buffer.
    open spec fn data_spec(&self) -> Seq<u8> {
        be32_of(self.amount as nat)
    }

    fn get_data(&self) -> (r: Vec<u8>)
        ensures
            r@ == self.data_spec(),
    {
        u128_to_bytes(self.amount)
    }
}

/// Unfolds the field-list encoding of the six meta-operation fields.
#[verifier::rlimit(50)]
proof fn lemma_enc_fields6(
    a: Option<Seq<u8>>,
    b: Option<Seq<u8>>,
    c: Option<Seq<u8>>,
    d: Option<Seq<u8>>,
    e: Option<Seq<u8>>,
    f: Option<Seq<u8>>,
)
    ensures
        enc_fields(seq![a, b, c, d, e, f]) == enc_opt_field(a) + enc_opt_field(b) + enc_opt_field(
            c,
        ) + enc_opt_field(d) + enc_opt_field(e) + enc_opt_field(f),
{
    let s6 = seq![a, b, c, d, e, f];
    let s5 = seq![b, c, d, e, f];
    let s4 = seq![c, d, e, f];
    let s3 = seq![d, e, f];
    let s2 = seq![e, f];
    let s1 = seq![f];
    let s0 = Seq::<Option<Seq<u8>>>::empty();
    assert(s6.drop_first() =~= s5);
    assert(s5.drop_first() =~= s4);
    assert(s4.drop_first() =~= s3);
    assert(s3.drop_first() =~= s2);
    assert(s2.drop_first() =~= s1);
    assert(s1.drop_first() =~= s0);
    assert(enc_fields(s0) == Seq::<u8>::empty());
    assert(enc_fields(s1) == enc_opt_field(f) + enc_fields(s0));
    assert(enc_fields(s1) =~= enc_opt_field(f));
    assert(enc_fields(s2) == enc_opt_field(e) + enc_fields(s1));
    assert(enc_fields(s3) == enc_opt_field(d) + enc_fields(s2));
    assert(enc_fields(s4) == enc_opt_field(c) + enc_fields(s3));
    assert(enc_fields(s5) == enc_opt_field(b) + enc_fields(s4));
    assert(enc_fields(s6) == enc_opt_field(a) + enc_fields(s5));
    assert(enc_fields(s6) =~= enc_opt_field(a) + enc_opt_field(b) + enc_opt_field(c)
        + enc_opt_field(d) + enc_opt_field(e) + enc_opt_field(f));
}

/// Encoding round trip: decoding the six length-prefixed optional fields
/// from an encoded transfer payload recovers exactly the optional values
/// that were encoded, the absent (zero-length) case included. A present
/// field must be non-empty: a present empty buffer encodes exactly like
/// an absent one and reads back as absent.
pub proof fn lemma_meta_encoding_round_trip(op: &TransferFullMetaOperation)
    requires
        forall|i: int|
            0 <= i < op.field_list().len() ==> round_trip_field(#[trigger] op.field_list()[i]),
    ensures
        dec_fields(op.data_spec(), 0, 6) == Some(
            (op.field_list(), op.data_spec().len() as int),
        ),
{
    let fl = op.field_list();
    lemma_enc_fields6(
        opt_utf8(op.token),
        opt_utf8(op.title),
        opt_padded_utf8(op.token_id_to),
        opt_amount_bytes(op.amount),
        opt_utf8(op.media_url),
        opt_bytes_view(op.media_hash),
    );
    lemma_fields_round_trip(fl, Seq::<u8>::empty(), Seq::<u8>::empty());
    assert(Seq::<u8>::empty() + enc_fields(fl) + Seq::<u8>::empty() =~= op.data_spec());
}

} // verus!
