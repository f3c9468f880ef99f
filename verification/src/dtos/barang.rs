//! Goods as clients see them.

use vstd::prelude::*;
use vstd::std_specs::convert::FromSpecImpl;
use vstd::string::*;

use crate::models::barang::BarangModel;

verus! {

/// A record of goods as a client sees it.
#[derive(Debug)]
pub struct BarangDto {
    pub id: String,
    pub name: String,
    pub price: i32,
    pub stock: i32,
    /// The day of expiry, counted in days of the common era.
    pub expired_at: Option<i32>,
    /// Seconds since the epoch.
    pub created_at: Option<i64>,
    /// Seconds since the epoch.
    pub updated_at: Option<i64>,
}

/// What a client sees of a record: all of it.
pub open spec fn shown(barang: BarangModel) -> BarangDto {
    BarangDto {
        id: barang.id,
        name: barang.name,
        price: barang.price,
        stock: barang.stock,
        expired_at: barang.expired_at,
        created_at: barang.created_at,
        updated_at: barang.updated_at,
    }
}

impl BarangDto {
    /// Shows a record.
    pub fn filter(barang: &BarangModel) -> (dto: Self)
        ensures
            dto == shown(*barang),
    {
        BarangDto {
            id: barang.id.clone(),
            name: barang.name.clone(),
            price: barang.price,
            stock: barang.stock,
            expired_at: barang.expired_at,
            created_at: barang.created_at,
            updated_at: barang.updated_at,
        }
    }

    /// Shows records, each in its place.
    pub fn filter_iter(barangs: &[BarangModel]) -> (dtos: Vec<BarangDto>)
        ensures
            dtos@ == barangs@.map_values(|barang: BarangModel| shown(barang)),
    {
        let mut dtos: Vec<BarangDto> = Vec::new();
        let mut i: usize = 0;
        while i < barangs.len()
            invariant
                i <= barangs.len(),
                dtos@ == barangs@.take(i as int).map_values(|barang: BarangModel| shown(barang)),
            decreases barangs.len() - i,
        {
            dtos.push(BarangDto::filter(&barangs[i]));
            assert(dtos@ =~= barangs@.take(i + 1).map_values(
                |barang: BarangModel| shown(barang),
            ));
            i = i + 1;
        }
        assert(barangs@.take(i as int) =~= barangs@);
        dtos
    }
}

/// The record that a client's view stands for.
pub open spec fn kept(dto: BarangDto) -> BarangModel {
    BarangModel {
        id: dto.id,
        name: dto.name,
        price: dto.price,
        stock: dto.stock,
        expired_at: dto.expired_at,
        created_at: dto.created_at,
        updated_at: dto.updated_at,
    }
}

impl From<BarangModel> for BarangDto {
    fn from(barang: BarangModel) -> (dto: BarangDto) {
        BarangDto {
            id: barang.id,
            name: barang.name,
            price: barang.price,
            stock: barang.stock,
            expired_at: barang.expired_at,
            created_at: barang.created_at,
            updated_at: barang.updated_at,
        }
    }
}

impl FromSpecImpl<BarangModel> for BarangDto {
    open spec fn obeys_from_spec() -> bool {
        true
    }

    open spec fn from_spec(barang: BarangModel) -> BarangDto {
        shown(barang)
    }
}

impl From<BarangDto> for BarangModel {
    fn from(dto: BarangDto) -> (barang: BarangModel) {
        BarangModel {
            id: dto.id,
            name: dto.name,
            price: dto.price,
            stock: dto.stock,
            expired_at: dto.expired_at,
            created_at: dto.created_at,
            updated_at: dto.updated_at,
        }
    }
}

impl FromSpecImpl<BarangDto> for BarangModel {
    open spec fn obeys_from_spec() -> bool {
        true
    }

    open spec fn from_spec(dto: BarangDto) -> BarangModel {
        kept(dto)
    }
}

/// A record that is shown and kept again is the record it was.
pub proof fn law_shown_record_is_kept_whole(barang: BarangModel)
    ensures
        kept(shown(barang)) == barang,
{
}

/// The records of a reply.
#[derive(Debug)]
pub struct BarangsData {
    pub barang: Vec<BarangDto>,
}

/// The body of a reply with several records.
#[derive(Debug)]
pub struct BarangsResponseDto {
    pub status: String,
    pub data: BarangsData,
}

/// The record of a reply.
#[derive(Debug)]
pub struct BarangData {
    pub barang: BarangDto,
}

/// The body of a reply with one record.
#[derive(Debug)]
pub struct BarangResponseDto {
    pub status: String,
    pub data: BarangData,
}

} // verus!
