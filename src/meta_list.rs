use vstd::prelude::*;
use crate::address::Address;
use vstd::arithmetic::div_mod::lemma_div_multiples_vanish;
use anchor_lang::prelude::Pubkey;
use spl_tlv_account_resolution::account::ExtraAccountMeta;
use spl_tlv_account_resolution::seeds::Seed;
use spl_tlv_account_resolution::state::ExtraAccountMetaList;
use spl_transfer_hook_interface::instruction::ExecuteInstruction;

verus! {

/// One entry of the extra-account list: where the account comes from and how it is used.
#[derive(Debug)]
pub enum AccountDescriptor {
    /// An account at a fixed address.
    Fixed { address: Address, is_signer: bool, is_writable: bool },
    /// An address derived under this program from one literal seed.
    Seeded { seed: Vec<u8>, is_signer: bool, is_writable: bool },
}

/// Mathematical view of a descriptor.
pub enum DescriptorView {
    Fixed { address: Seq<u8>, is_signer: bool, is_writable: bool },
    Seeded { seed: Seq<u8>, is_signer: bool, is_writable: bool },
}

impl View for AccountDescriptor {
    type V = DescriptorView;

    open spec fn view(&self) -> DescriptorView {
        match self {
            AccountDescriptor::Fixed { address, is_signer, is_writable } => DescriptorView::Fixed {
                address: address@,
                is_signer: *is_signer,
                is_writable: *is_writable,
            },
            AccountDescriptor::Seeded { seed, is_signer, is_writable } => DescriptorView::Seeded {
                seed: seed@,
                is_signer: *is_signer,
                is_writable: *is_writable,
            },
        }
    }
}

/// Longest literal seed that fits in a descriptor's 32-byte address configuration.
pub const MAX_LITERAL_SEED_LEN: usize = 30;

/// Bytes taken by one encoded descriptor.
pub const DESCRIPTOR_LEN: usize = 35;

/// Bytes of the list header: instruction discriminator, entry length, item count.
pub const HEADER_LEN: usize = 16;

pub open spec fn descriptor_wf(d: DescriptorView) -> bool {
    match d {
        DescriptorView::Fixed { address, .. } => address.len() == 32,
        DescriptorView::Seeded { seed, .. } => seed.len() <= MAX_LITERAL_SEED_LEN,
    }
}

pub open spec fn descriptors_wf(ds: Seq<DescriptorView>) -> bool {
    forall|i: int| 0 <= i < ds.len() ==> descriptor_wf(#[trigger] ds[i])
}

pub open spec fn views(ds: Seq<AccountDescriptor>) -> Seq<DescriptorView> {
    ds.map_values(|d: AccountDescriptor| d@)
}

/// Discriminator of the transfer-hook "execute" instruction, which keys the list.
pub open spec fn execute_discriminator() -> Seq<u8> {
    seq![105u8, 37, 101, 197, 75, 251, 102, 26]
}

pub open spec fn le32(n: nat) -> Seq<u8> {
    seq![
        (n % 256) as u8,
        ((n / 256) % 256) as u8,
        ((n / 65536) % 256) as u8,
        ((n / 16777216) % 256) as u8,
    ]
}

pub open spec fn flag(b: bool) -> u8 {
    if b {
        1
    } else {
        0
    }
}

/// A literal seed in a 32-byte configuration: kind 1, its length, its bytes, zero padding.
pub open spec fn literal_config(seed: Seq<u8>) -> Seq<u8> {
    seq![1u8, seed.len() as u8] + seed + Seq::new((30 - seed.len()) as nat, |i: int| 0u8)
}

pub open spec fn descriptor_bytes(d: DescriptorView) -> Seq<u8> {
    match d {
        DescriptorView::Fixed { address, is_signer, is_writable } => seq![0u8] + address + seq![
            flag(is_signer),
            flag(is_writable),
        ],
        DescriptorView::Seeded { seed, is_signer, is_writable } => seq![1u8] + literal_config(seed)
            + seq![flag(is_signer), flag(is_writable)],
    }
}

pub open spec fn descriptors_bytes(ds: Seq<DescriptorView>) -> Seq<u8>
    decreases ds.len(),
{
    if ds.len() == 0 {
        Seq::empty()
    } else {
        descriptors_bytes(ds.drop_last()) + descriptor_bytes(ds.last())
    }
}

/// The stored form of a descriptor list: one type-length-value entry keyed by the execute
/// discriminator, whose value is the item count followed by the descriptors.
pub open spec fn meta_list_bytes(ds: Seq<DescriptorView>) -> Seq<u8> {
    list_header_bytes(ds.len()) + descriptors_bytes(ds)
}

pub open spec fn meta_list_len(n: nat) -> nat {
    (HEADER_LEN + DESCRIPTOR_LEN * n) as nat
}


pub open spec fn list_header_bytes(n: nat) -> Seq<u8> {
    execute_discriminator() + le32((4 + DESCRIPTOR_LEN * n) as nat) + le32(n)
}

/// Relies on ExtraAccountMetaList::size_of: 12 header bytes saturating-added to
/// PodSlice::size_of, which is 4 + 35 * n, or an error when that overflows.
#[verifier::external_body]
fn tlv_list_size(n: usize) -> (r: Option<usize>)
    ensures
        meta_list_len(n as nat) <= usize::MAX ==> r == Some(meta_list_len(n as nat) as usize),
        DESCRIPTOR_LEN * n + 4 > usize::MAX ==> r is None,
{
    ExtraAccountMetaList::size_of(n).ok()
}

/// Bytes needed to store a list of `n` descriptors, if that fits in `usize`.
pub fn meta_list_size(n: usize) -> (r: Option<usize>)
    ensures
        meta_list_len(n as nat) <= usize::MAX ==> r == Some(meta_list_len(n as nat) as usize),
        DESCRIPTOR_LEN * n + 4 > usize::MAX ==> r is None,
{
    tlv_list_size(n)
}

/// Relies on ExtraAccountMeta::new_with_pubkey and ::new_with_seeds (one literal seed) to
/// build each entry, and on ExtraAccountMetaList::init over a zeroed buffer of
/// ExtraAccountMetaList::size_of bytes to write them under the execute discriminator.
#[verifier::external_body]
fn pack_meta_list(ds: &Vec<AccountDescriptor>) -> (r: Option<Vec<u8>>)
    requires
        descriptors_wf(views(ds@)),
        meta_list_len(ds@.len()) <= u32::MAX,
    ensures
        r is Some,
        r matches Some(b) ==> b@ == meta_list_bytes(views(ds@)),
{
    let metas = ds.iter().map(|d| match d {
        AccountDescriptor::Fixed { address, is_signer, is_writable } =>
            ExtraAccountMeta::new_with_pubkey(&Pubkey::new_from_array(address.bytes), *is_signer, *is_writable),
        AccountDescriptor::Seeded { seed, is_signer, is_writable } =>
            ExtraAccountMeta::new_with_seeds(&[Seed::Literal { bytes: seed.clone() }], *is_signer, *is_writable),
    }).collect::<Result<Vec<_>, _>>().ok()?;
    let mut data = vec![0u8; ExtraAccountMetaList::size_of(metas.len()).ok()?];
    ExtraAccountMetaList::init::<ExecuteInstruction>(&mut data, &metas).ok()?;
    Some(data)
}

/// Serializes a descriptor list into its stored form.
pub fn encode_meta_list(ds: &Vec<AccountDescriptor>) -> (r: Vec<u8>)
    requires
        descriptors_wf(views(ds@)),
        meta_list_len(ds@.len()) <= u32::MAX,
    ensures
        r@ == meta_list_bytes(views(ds@)),
        r@.len() == meta_list_len(ds@.len()),
{
    proof {
        lemma_descriptors_len(views(ds@));
    }
    match pack_meta_list(ds) {
        Some(b) => b,
        None => Vec::new(),
    }
}

proof fn lemma_descriptors_len(ds: Seq<DescriptorView>)
    requires
        descriptors_wf(ds),
    ensures
        descriptors_bytes(ds).len() == DESCRIPTOR_LEN * ds.len(),
    decreases ds.len(),
{
    if ds.len() > 0 {
        assert(descriptor_wf(ds[ds.len() - 1]));
        assert forall|i: int| 0 <= i < ds.len() - 1 implies descriptor_wf(#[trigger] ds.drop_last()[i]) by {
            assert(descriptor_wf(ds[i]));
        }
        lemma_descriptors_len(ds.drop_last());
    }
}

proof fn lemma_descriptor_bytes_injective(d1: DescriptorView, d2: DescriptorView)
    requires
        descriptor_wf(d1),
        descriptor_wf(d2),
        descriptor_bytes(d1) == descriptor_bytes(d2),
    ensures
        d1 == d2,
{
    let b = descriptor_bytes(d1);
    match d1 {
        DescriptorView::Fixed { address: a1, is_signer: s1, is_writable: w1 } => {
            assert(b[0] == 0);
            match d2 {
                DescriptorView::Fixed { address: a2, is_signer: s2, is_writable: w2 } => {
                    assert(a1 =~= b.subrange(1, 33));
                    assert(a2 =~= b.subrange(1, 33));
                    assert(flag(s1) == b[33] && flag(s2) == b[33]);
                    assert(flag(w1) == b[34] && flag(w2) == b[34]);
                },
                DescriptorView::Seeded { .. } => {
                    assert(descriptor_bytes(d2)[0] == 1);
                },
            }
        },
        DescriptorView::Seeded { seed: e1, is_signer: s1, is_writable: w1 } => {
            assert(b[0] == 1);
            match d2 {
                DescriptorView::Fixed { .. } => {
                    assert(descriptor_bytes(d2)[0] == 0);
                },
                DescriptorView::Seeded { seed: e2, is_signer: s2, is_writable: w2 } => {
                    assert(b[2] == e1.len() as u8);
                    assert(descriptor_bytes(d2)[2] == e2.len() as u8);
                    assert(e1.len() == e2.len());
                    let l = e1.len() as int;
                    assert(e1 =~= b.subrange(3, 3 + l));
                    assert(e2 =~= descriptor_bytes(d2).subrange(3, 3 + l));
                    assert(flag(s1) == b[33] && flag(s2) == b[33]);
                    assert(flag(w1) == b[34] && flag(w2) == b[34]);
                },
            }
        },
    }
}

/// Reads the descriptor stored at `data[start..start + 35]`.
pub open spec fn encodes(ds: Seq<DescriptorView>, data: Seq<u8>) -> bool {
    &&& descriptors_wf(ds)
    &&& meta_list_len(ds.len()) <= u32::MAX
    &&& meta_list_bytes(ds) == data
}

proof fn lemma_descriptors_chunk(ds: Seq<DescriptorView>, i: int)
    requires
        descriptors_wf(ds),
        0 <= i < ds.len(),
    ensures
        descriptors_bytes(ds).subrange(DESCRIPTOR_LEN * i, DESCRIPTOR_LEN * i + DESCRIPTOR_LEN)
            == descriptor_bytes(ds[i]),
    decreases ds.len(),
{
    let pre = ds.drop_last();
    assert forall|j: int| 0 <= j < pre.len() implies descriptor_wf(#[trigger] pre[j]) by {
        assert(descriptor_wf(ds[j]));
    }
    lemma_descriptors_len(pre);
    assert(descriptor_wf(ds[ds.len() - 1]));
    let all = descriptors_bytes(ds);
    if i == ds.len() - 1 {
        assert(all.subrange(DESCRIPTOR_LEN * i, DESCRIPTOR_LEN * i + DESCRIPTOR_LEN) =~= descriptor_bytes(
            ds[i],
        ));
    } else {
        lemma_descriptors_chunk(pre, i);
        assert(DESCRIPTOR_LEN * i + DESCRIPTOR_LEN <= DESCRIPTOR_LEN * pre.len()) by (nonlinear_arith)
            requires
                i < pre.len(),
        ;
        assert(all.subrange(DESCRIPTOR_LEN * i, DESCRIPTOR_LEN * i + DESCRIPTOR_LEN) =~= descriptors_bytes(
            pre,
        ).subrange(DESCRIPTOR_LEN * i, DESCRIPTOR_LEN * i + DESCRIPTOR_LEN));
    }
}

proof fn lemma_encoding_shape(ds: Seq<DescriptorView>, data: Seq<u8>)
    requires
        encodes(ds, data),
    ensures
        data.len() == HEADER_LEN + DESCRIPTOR_LEN * ds.len(),
        data.subrange(0, HEADER_LEN as int) == list_header_bytes(ds.len()),
        forall|i: int|
            0 <= i < ds.len() ==> data.subrange(
                HEADER_LEN + DESCRIPTOR_LEN * i,
                HEADER_LEN + DESCRIPTOR_LEN * i + DESCRIPTOR_LEN,
            ) == descriptor_bytes(#[trigger] ds[i]),
{
    lemma_descriptors_len(ds);
    let head = list_header_bytes(ds.len());
    assert(head.len() == HEADER_LEN);
    assert(data.subrange(0, HEADER_LEN as int) =~= head);
    assert forall|i: int| 0 <= i < ds.len() implies data.subrange(
        HEADER_LEN + DESCRIPTOR_LEN * i,
        HEADER_LEN + DESCRIPTOR_LEN * i + DESCRIPTOR_LEN,
    ) == descriptor_bytes(#[trigger] ds[i]) by {
        lemma_descriptors_chunk(ds, i);
        assert(DESCRIPTOR_LEN * i + DESCRIPTOR_LEN <= DESCRIPTOR_LEN * ds.len()) by (nonlinear_arith)
            requires
                i < ds.len(),
        ;
        assert(data.subrange(HEADER_LEN + DESCRIPTOR_LEN * i, HEADER_LEN + DESCRIPTOR_LEN * i + DESCRIPTOR_LEN)
            =~= descriptors_bytes(ds).subrange(DESCRIPTOR_LEN * i, DESCRIPTOR_LEN * i + DESCRIPTOR_LEN));
    }
}

/// Reads a stored descriptor list back: it accepts exactly the stored forms of
/// well-formed lists and returns the list that was stored.
/// A stored list determines the list it stores: two well-formed lists with the same stored
/// form are the same list, so reading the stored bytes back gives the registered entries.
pub proof fn lemma_meta_list_bytes_injective(ds1: Seq<DescriptorView>, ds2: Seq<DescriptorView>, data: Seq<u8>)
    requires
        encodes(ds1, data),
        encodes(ds2, data),
    ensures
        ds1 == ds2,
{
    lemma_encoding_shape(ds1, data);
    lemma_encoding_shape(ds2, data);
    lemma_div_multiples_vanish(ds1.len() as int, DESCRIPTOR_LEN as int);
    lemma_div_multiples_vanish(ds2.len() as int, DESCRIPTOR_LEN as int);
    assert(ds1.len() == ds2.len());
    assert forall|i: int| 0 <= i < ds1.len() implies ds1[i] == ds2[i] by {
        assert(descriptor_wf(ds1[i]) && descriptor_wf(ds2[i]));
        lemma_descriptor_bytes_injective(ds1[i], ds2[i]);
    }
    assert(ds1 =~= ds2);
}

} // verus!
