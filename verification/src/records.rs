//! The record model: the fields of interior-cell and light records that the
//! merge reads or rewrites, held as plain values.
//!
//! Identifiers are byte strings; colors are four byte channels; fractional
//! fields of the plugin format (a cell's fog density) are carried untouched
//! as the IEEE-754 bit pattern of the stored value, so that the merge can
//! pass them through without interpreting them.

use vstd::prelude::*;

verus! {

/// A light record's flag bit for flickering, as the plugin format encodes it.
pub const FLAG_FLICKER: u32 = 0x0008;

/// A light record's flag bit for slow flickering.
pub const FLAG_FLICKER_SLOW: u32 = 0x0040;

/// A light record's flag bit for a negative (darkness-casting) light.
pub const FLAG_NEGATIVE: u32 = 0x0004;

/// A four-channel color with byte channels.
#[derive(Clone, Copy, PartialEq, Eq, Structural, Debug)]
pub struct Color {
    pub r: u8,
    pub g: u8,
    pub b: u8,
    pub a: u8,
}

/// A cell's atmosphere block. The fog density is carried as the bit pattern
/// of the 32-bit fractional value the plugin format stores.
#[derive(Clone, Copy, PartialEq, Eq, Structural, Debug)]
pub struct Atmosphere {
    pub fog_density_bits: u32,
    pub fog_color: Color,
    pub ambient_color: Color,
    pub sunlight_color: Color,
}

/// A cell record: its identifier, whether it is interior, its atmosphere
/// block if it has one, and how many object references it carries.
pub struct CellRecord {
    pub id: Vec<u8>,
    pub interior: bool,
    pub atmosphere: Option<Atmosphere>,
    pub ref_count: usize,
}

/// The mathematical value of a cell record.
pub struct CellView {
    pub id: Seq<u8>,
    pub interior: bool,
    pub atmosphere: Option<Atmosphere>,
    pub ref_count: usize,
}

impl View for CellRecord {
    type V = CellView;

    open spec fn view(&self) -> CellView {
        CellView {
            id: self.id@,
            interior: self.interior,
            atmosphere: self.atmosphere,
            ref_count: self.ref_count,
        }
    }
}

impl Clone for CellRecord {
    fn clone(&self) -> (r: Self)
        ensures
            r@ == self@,
    {
        CellRecord {
            id: self.id.clone(),
            interior: self.interior,
            atmosphere: self.atmosphere,
            ref_count: self.ref_count,
        }
    }
}

/// A light record: its identifier, color, radius and flag bits.
pub struct LightRecord {
    pub id: Vec<u8>,
    pub color: Color,
    pub radius: u32,
    pub flags: u32,
}

/// The mathematical value of a light record.
pub struct LightView {
    pub id: Seq<u8>,
    pub color: Color,
    pub radius: u32,
    pub flags: u32,
}

impl View for LightRecord {
    type V = LightView;

    open spec fn view(&self) -> LightView {
        LightView { id: self.id@, color: self.color, radius: self.radius, flags: self.flags }
    }
}

impl Clone for LightRecord {
    fn clone(&self) -> (r: Self)
        ensures
            r@ == self@,
    {
        LightRecord {
            id: self.id.clone(),
            color: self.color,
            radius: self.radius,
            flags: self.flags,
        }
    }
}

/// A record the merge emits.
pub enum Record {
    Cell(CellRecord),
    Light(LightRecord),
}

/// The mathematical value of an emitted record.
pub enum RecordView {
    Cell(CellView),
    Light(LightView),
}

impl View for Record {
    type V = RecordView;

    open spec fn view(&self) -> RecordView {
        match self {
            Record::Cell(c) => RecordView::Cell(c@),
            Record::Light(l) => RecordView::Light(l@),
        }
    }
}

/// The identifier a record is filed under.
pub open spec fn record_id(r: RecordView) -> Seq<u8> {
    match r {
        RecordView::Cell(c) => c.id,
        RecordView::Light(l) => l.id,
    }
}

/// A dependency entry of the output header: a contributing plugin's file
/// name and its size in bytes.
pub struct Master {
    pub name: Vec<u8>,
    pub size: u64,
}

/// The mathematical value of a dependency entry.
pub struct MasterView {
    pub name: Seq<u8>,
    pub size: u64,
}

impl View for Master {
    type V = MasterView;

    open spec fn view(&self) -> MasterView {
        MasterView { name: self.name@, size: self.size }
    }
}

} // verus!
