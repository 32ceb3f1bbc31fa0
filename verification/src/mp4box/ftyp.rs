//! `ftyp` — the file-type box: the major brand, a minor version, and the
//! list of compatible brands, each a FourCC.  The brand count is derived
//! from the declared size, which must be a multiple of four and at least
//! large enough for the two fixed fields.

use crate::byteio::{be32, read_u32};
use crate::error::Error;
use crate::mp4box::{box_start, seek_end, BoxType, Mp4Box, ReadBox};
use crate::types::{u32_be_bytes, FourCC};
use vstd::prelude::*;

verus! {

#[derive(Debug, Clone, PartialEq, Eq)]
pub struct FtypBox {
    pub major_brand: FourCC,
    pub minor_version: u32,
    pub compatible_brands: Vec<FourCC>,
}

impl FtypBox {
    pub fn get_type(&self) -> (t: BoxType)
        ensures
            t == BoxType::FtypBox,
    {
        BoxType::FtypBox
    }

    pub fn get_size(&self) -> (s: u64)
        requires
            self.size_spec() <= u64::MAX,
        ensures
            s as int == self.size_spec(),
    {
        8 + 8 + 4 * (self.compatible_brands.len() as u64)
    }
}

impl Mp4Box for FtypBox {
    open spec fn size_spec(&self) -> int {
        8 + 8 + 4 * (self.compatible_brands@.len() as int)
    }

    proof fn size_spec_bounds(&self) {
    }

    fn box_type(&self) -> (t: BoxType) {
        self.get_type()
    }

    fn box_size(&self) -> (s: u64) {
        self.get_size()
    }
}

/// True when the box at body position `p` with declared size `size`
/// decodes: the size covers the fixed fields, is 4-byte aligned, and the
/// whole body lies within the data.
pub open spec fn ftyp_parse_ok(s: Seq<u8>, p: int, size: int) -> bool {
    &&& size >= 16
    &&& size % 4 == 0
    &&& p - 8 + size <= s.len()
    &&& p - 8 + size <= u64::MAX
}

impl ReadBox for FtypBox {
    fn read_box(data: &[u8], pos: &mut u64, size: u64) -> (r: Result<Self, Error>)
        ensures
            match r {
                Ok(b) => {
                    &&& ftyp_parse_ok(data@, *old(pos) as int, size as int)
                    &&& b.major_brand.value == u32_be_bytes(be32(data@, *old(pos) as int))
                    &&& b.minor_version as int == be32(data@, *old(pos) + 4)
                    &&& b.compatible_brands@.len() == (size - 16) / 4
                    &&& forall|i: int|
                        0 <= i < b.compatible_brands@.len()
                            ==> #[trigger] b.compatible_brands@[i].value == u32_be_bytes(
                            be32(data@, *old(pos) + 8 + 4 * i),
                        )
                    &&& *final(pos) == *old(pos) - 8 + size
                },
                Err(e) => {
                    &&& !ftyp_parse_ok(data@, *old(pos) as int, size as int)
                    &&& (e is Io || e is MalformedContainer)
                },
            },
    {
        let ghost p0 = *pos as int;
        let start = box_start(*pos);
        if size < 16 || size % 4 != 0 {
            return Err(Error::MalformedContainer("ftyp size too small or not aligned"));
        }
        let brand_count: u64 = (size - 16) / 4;
        let major = match read_u32(data, pos) {
            Ok(v) => v,
            Err(e) => {
                return Err(e);
            },
        };
        let minor = match read_u32(data, pos) {
            Ok(v) => v,
            Err(e) => {
                return Err(e);
            },
        };
        let mut brands: Vec<FourCC> = Vec::new();
        let mut i: u64 = 0;
        while i < brand_count
            invariant
                p0 == *old(pos) as int,
                i <= brand_count,
                brand_count == (size - 16) / 4,
                size >= 16,
                size % 4 == 0,
                size <= u64::MAX,
                *pos == p0 + 8 + 4 * i,
                p0 + 8 <= data@.len(),
                i > 0 ==> *pos <= data@.len(),
                p0 >= 8,
                brands@.len() == i,
                forall|j: int|
                    0 <= j < i ==> #[trigger] brands@[j].value == u32_be_bytes(
                        be32(data@, p0 + 8 + 4 * j),
                    ),
            decreases brand_count - i,
        {
            let b = match read_u32(data, pos) {
                Ok(v) => v,
                Err(e) => {
                    proof {
                        assert(4 * ((size - 16) / 4) == size - 16);
                    }
                    return Err(e);
                },
            };
            brands.push(FourCC::from_u32(b));
            i = i + 1;
        }
        proof {
            assert(4 * ((size - 16) / 4) == size - 16);
        }
        match seek_end(pos, start, size) {
            Ok(()) => {},
            Err(e) => {
                return Err(e);
            },
        }
        Ok(FtypBox { major_brand: FourCC::from_u32(major), minor_version: minor, compatible_brands: brands })
    }
}

} // verus!
