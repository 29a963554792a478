//! Account references and the validated cast from raw bytes to a market
//! record.
//!
//! A caller hands over accounts as a key and a byte buffer. Before any byte
//! of a buffer is read as a field of a record, the buffer is held against
//! the layout of that record: its length, and the tag it starts with. A
//! buffer that fails either test is refused; none is ever read past its
//! end.

use vstd::prelude::*;
use crate::error::StructuralError;

verus! {

/// The number of bytes in a key.
pub const KEY_LEN: usize = 32;

/// The number of bytes in the tag that a record starts with.
pub const TAG_LEN: usize = 8;

/// The key of an account.
#[derive(Clone, Copy, Debug, PartialEq, Eq)]
pub struct Pubkey {
    /// The bytes of the key.
    pub bytes: [u8; 32],
}

impl View for Pubkey {
    type V = Seq<u8>;

    /// The bytes of the key, in order.
    open spec fn view(&self) -> Seq<u8> {
        self.bytes@
    }
}

impl Pubkey {
    /// Whether two keys have the same bytes.
    pub fn matches(&self, other: &Pubkey) -> (r: bool)
        ensures
            r == (self@ == other@),
    {
        let mut i: usize = 0;
        while i < KEY_LEN
            invariant
                i <= KEY_LEN,
                forall|k: int| 0 <= k < i ==> self.bytes@[k] == other.bytes@[k],
            decreases KEY_LEN - i,
        {
            if self.bytes[i] != other.bytes[i] {
                return false;
            }
            i += 1;
        }
        assert(self.bytes@ =~= other.bytes@);
        true
    }
}

/// An account as a caller supplies it: a key and the bytes stored under it.
#[derive(Clone, Debug, PartialEq, Eq)]
pub struct AccountRef {
    /// The key of the account.
    pub key: Pubkey,
    /// The bytes of the account.
    pub data: Vec<u8>,
}

/// The value of two bytes read as a little-endian 16-bit number.
pub open spec fn le_u16(lo: u8, hi: u8) -> u16 {
    (lo as int + 256 * hi as int) as u16
}

/// The part of a market record's binary layout that this library reads.
#[derive(Clone, Copy, Debug, PartialEq, Eq)]
pub struct AccountLayout {
    /// The tag that every buffer of this record starts with.
    pub discriminator: [u8; 8],
    /// The number of bytes of the whole record.
    pub size: usize,
    /// Where in the record the market index stands, as two bytes, low byte
    /// first.
    pub index_offset: usize,
}

/// A buffer that has passed the tests of a layout, with the market index
/// read from it. It borrows the account and copies nothing.
#[derive(Clone, Copy, Debug)]
pub struct MarketView<'a> {
    /// The account that holds the record.
    pub account: &'a AccountRef,
    /// The market index that the record declares.
    pub market_index: u16,
}

impl AccountLayout {
    /// The least length of a buffer that can hold the record: the record's
    /// size, and no less than the tag and the market index reach.
    pub open spec fn required_len(&self) -> int {
        let size = self.size as int;
        let index_end = self.index_offset as int + 2;
        let tag_end = TAG_LEN as int;
        if size >= index_end && size >= tag_end {
            size
        } else if index_end >= tag_end {
            index_end
        } else {
            tag_end
        }
    }

    /// Whether `data` starts with the tag of this record.
    pub open spec fn tagged(&self, data: Seq<u8>) -> bool {
        data.len() >= TAG_LEN && data.subrange(0, TAG_LEN as int) == self.discriminator@
    }

    /// The market index that `data` declares.
    pub open spec fn declared_index(&self, data: Seq<u8>) -> u16 {
        le_u16(data[self.index_offset as int], data[self.index_offset as int + 1])
    }

    /// What is wrong with `data` as a buffer of this record: too short
    /// comes before a wrong tag, and `None` says that the buffer is sound.
    pub open spec fn fault(&self, data: Seq<u8>) -> Option<StructuralError> {
        if data.len() < self.required_len() {
            Some(StructuralError::AccountTooSmall)
        } else if !self.tagged(data) {
            Some(StructuralError::DiscriminatorMismatch)
        } else {
            None
        }
    }

    /// Whether `data` is long enough for this record.
    fn long_enough(&self, data: &Vec<u8>) -> (r: bool)
        ensures
            r == (data@.len() >= self.required_len()),
    {
        let len: usize = data.len();
        if len < self.size || len < TAG_LEN || len < 2 {
            return false;
        }
        self.index_offset <= len - 2
    }

    /// Whether `data`, which is at least as long as a tag, starts with the
    /// tag of this record.
    fn starts_with_tag(&self, data: &Vec<u8>) -> (r: bool)
        requires
            data@.len() >= TAG_LEN,
        ensures
            r == self.tagged(data@),
    {
        let mut k: usize = 0;
        while k < TAG_LEN
            invariant
                k <= TAG_LEN,
                data@.len() >= TAG_LEN,
                forall|j: int| 0 <= j < k ==> data@[j] == self.discriminator@[j],
            decreases TAG_LEN - k,
        {
            if data[k] != self.discriminator[k] {
                assert(data@.subrange(0, TAG_LEN as int)[k as int] == data@[k as int]);
                return false;
            }
            k += 1;
        }
        assert(data@.subrange(0, TAG_LEN as int) =~= self.discriminator@);
        true
    }

    /// Reads the buffer of `account` as a record of this layout. The cast
    /// succeeds exactly when the buffer is long enough and starts with the
    /// record's tag; the view then carries the market index that stands at
    /// the layout's offset.
    pub fn reconstruct<'a>(&self, account: &'a AccountRef) -> (r: Result<
        MarketView<'a>,
        StructuralError,
    >)
        ensures
            match r {
                Ok(view) => {
                    &&& self.fault(account.data@) is None
                    &&& *view.account == *account
                    &&& view.market_index == self.declared_index(account.data@)
                },
                Err(e) => self.fault(account.data@) == Some(e),
            },
    {
        if !self.long_enough(&account.data) {
            return Err(StructuralError::AccountTooSmall);
        }
        if !self.starts_with_tag(&account.data) {
            return Err(StructuralError::DiscriminatorMismatch);
        }
        let len: usize = account.data.len();
        assert(self.index_offset + 2 <= self.required_len() <= len);
        let lo: u8 = account.data[self.index_offset];
        let hi: u8 = account.data[self.index_offset + 1];
        let market_index: u16 = lo as u16 + 256 * (hi as u16);
        Ok(MarketView { account, market_index })
    }
}

} // verus!
