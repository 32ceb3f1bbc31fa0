//! `ilst` — the metadata item list: one entry per recognized tag, each
//! holding a `data` value box.  Kept as an ordered list of key/value pairs;
//! a tag that appears twice keeps both occurrences, the later one winning
//! on lookup, as an overwriting map would.

use crate::error::Error;
use crate::mp4box::data::DataBox;
use crate::mp4box::{box_start, child_end, seek_end, BoxHeader, BoxType, Mp4Box, ReadBox};
use crate::types::MetadataKey;
use vstd::prelude::*;

verus! {

/// One metadata entry: which tag it is, and its value box.
#[derive(Debug, Clone, PartialEq, Eq)]
pub struct IlstEntry {
    pub key: MetadataKey,
    pub value: IlstItemBox,
}

#[derive(Debug, Clone, PartialEq, Eq)]
pub struct IlstBox {
    pub items: Vec<IlstEntry>,
}

impl IlstBox {
    pub fn get_type(&self) -> (t: BoxType)
        ensures
            t == BoxType::IlstBox,
    {
        BoxType::IlstBox
    }

    pub fn get_size(&self) -> (s: u64)
        requires
            self.size_spec() <= u64::MAX,
        ensures
            s as int == self.size_spec(),
    {
        self.box_size()
    }
}

/// The declared sizes of the entries, added up.
pub open spec fn sum_item_sizes(s: Seq<IlstEntry>) -> int
    decreases s.len(),
{
    if s.len() == 0 {
        0
    } else {
        sum_item_sizes(s.drop_last()) + s.last().value.size_spec()
    }
}

impl Mp4Box for IlstBox {
    open spec fn size_spec(&self) -> int {
        8 + sum_item_sizes(self.items@)
    }

    proof fn size_spec_bounds(&self) {
        lemma_sum_item_sizes_nonneg(self.items@);
    }

    fn box_type(&self) -> (t: BoxType) {
        self.get_type()
    }

    fn box_size(&self) -> (s: u64) {
        proof {
            lemma_sum_item_sizes_nonneg(self.items@);
        }
        let mut sum: u64 = 8;
        let mut i: usize = 0;
        let n = self.items.len();
        while i < n
            invariant
                i <= n,
                n == self.items@.len(),
                self.size_spec() <= u64::MAX,
                self.size_spec() == 8 + sum_item_sizes(self.items@),
                sum as int == 8 + sum_item_sizes(self.items@.take(i as int)),
            decreases n - i,
        {
            proof {
                lemma_sum_item_sizes_take_step(self.items@, i as int);
                lemma_sum_item_sizes_take_le(self.items@, i as int + 1);
                self.items@[i as int].value.size_spec_bounds();
            }
            sum = sum + self.items[i].value.box_size();
            i = i + 1;
        }
        proof {
            assert(self.items@.take(n as int) =~= self.items@);
        }
        sum
    }
}

pub proof fn lemma_sum_item_sizes_take_step(s: Seq<IlstEntry>, i: int)
    requires
        0 <= i < s.len(),
    ensures
        sum_item_sizes(s.take(i + 1)) == sum_item_sizes(s.take(i)) + s[i].value.size_spec(),
{
    assert(s.take(i + 1).drop_last() =~= s.take(i));
    assert(s.take(i + 1).last() == s[i]);
}

pub proof fn lemma_sum_item_sizes_nonneg(s: Seq<IlstEntry>)
    ensures
        sum_item_sizes(s) >= 0,
    decreases s.len(),
{
    if s.len() > 0 {
        lemma_sum_item_sizes_nonneg(s.drop_last());
        s.last().value.size_spec_bounds();
    }
}

pub proof fn lemma_sum_item_sizes_take_le(s: Seq<IlstEntry>, i: int)
    requires
        0 <= i <= s.len(),
    ensures
        sum_item_sizes(s.take(i)) <= sum_item_sizes(s),
    decreases s.len() - i,
{
    if i == s.len() {
        assert(s.take(i) =~= s);
    } else {
        lemma_sum_item_sizes_take_le(s, i + 1);
        lemma_sum_item_sizes_take_step(s, i);
        s[i].value.size_spec_bounds();
    }
}

impl ReadBox for IlstBox {
    fn read_box(data: &[u8], pos: &mut u64, size: u64) -> (r: Result<Self, Error>)
        ensures
            r is Ok ==> *final(pos) == *old(pos) - 8 + size,
    {
        let start = box_start(*pos);
        if size > u64::MAX - start {
            return Err(Error::MalformedContainer("box end does not fit in 64 bits"));
        }
        let end: u64 = start + size;
        let mut items: Vec<IlstEntry> = Vec::new();
        while *pos < end
            invariant
                *pos >= 8,
                end <= u64::MAX,
            decreases end - *pos,
        {
            let header = match BoxHeader::read(data, pos) {
                Ok(h) => h,
                Err(e) => {
                    return Err(e);
                },
            };
            let cend = match child_end(*pos, header.size, end) {
                Ok(v) => v,
                Err(e) => {
                    return Err(e);
                },
            };
            let key: Option<MetadataKey> = match header.name {
                BoxType::NameBox => Some(MetadataKey::Title),
                BoxType::DayBox => Some(MetadataKey::Year),
                BoxType::CovrBox => Some(MetadataKey::Poster),
                BoxType::DescBox => Some(MetadataKey::Summary),
                _ => None,
            };
            match key {
                Some(key) => {
                    let value = match IlstItemBox::read_box(data, pos, header.size) {
                        Ok(b) => b,
                        Err(e) => {
                            return Err(e);
                        },
                    };
                    items.push(IlstEntry { key, value });
                },
                None => {
                    *pos = cend;
                },
            }
        }
        match seek_end(pos, start, size) {
            Ok(()) => {},
            Err(e) => {
                return Err(e);
            },
        }
        Ok(IlstBox { items })
    }
}

/// One metadata item: a wrapper around the mandatory `data` value box.
#[derive(Debug, Clone, PartialEq, Eq)]
pub struct IlstItemBox {
    pub data: DataBox,
}

impl IlstItemBox {
    pub fn get_size(&self) -> (s: u64)
        requires
            self.size_spec() <= u64::MAX,
        ensures
            s as int == self.size_spec(),
    {
        proof {
            self.data.size_spec_bounds();
        }
        8 + self.data.get_size()
    }
}

impl Mp4Box for IlstItemBox {
    open spec fn size_spec(&self) -> int {
        8 + self.data.size_spec()
    }

    proof fn size_spec_bounds(&self) {
        self.data.size_spec_bounds();
    }

    fn box_type(&self) -> (t: BoxType) {
        BoxType::IlstBox
    }

    fn box_size(&self) -> (s: u64) {
        self.get_size()
    }
}

impl ReadBox for IlstItemBox {
    fn read_box(data: &[u8], pos: &mut u64, size: u64) -> (r: Result<Self, Error>)
        ensures
            r is Ok ==> *final(pos) == *old(pos) - 8 + size,
    {
        let start = box_start(*pos);
        if size > u64::MAX - start {
            return Err(Error::MalformedContainer("box end does not fit in 64 bits"));
        }
        let end: u64 = start + size;
        let mut value: Option<DataBox> = None;
        while *pos < end
            invariant
                *pos >= 8,
                end <= u64::MAX,
            decreases end - *pos,
        {
            let header = match BoxHeader::read(data, pos) {
                Ok(h) => h,
                Err(e) => {
                    return Err(e);
                },
            };
            let cend = match child_end(*pos, header.size, end) {
                Ok(v) => v,
                Err(e) => {
                    return Err(e);
                },
            };
            match header.name {
                BoxType::DataBox => {
                    let b = match DataBox::read_box(data, pos, header.size) {
                        Ok(b) => b,
                        Err(e) => {
                            return Err(e);
                        },
                    };
                    value = Some(b);
                },
                _ => {
                    *pos = cend;
                },
            }
        }
        let value = match value {
            Some(b) => b,
            None => {
                return Err(Error::MissingRequiredBox(BoxType::DataBox));
            },
        };
        match seek_end(pos, start, size) {
            Ok(()) => {},
            Err(e) => {
                return Err(e);
            },
        }
        Ok(IlstItemBox { data: value })
    }
}

} // verus!
