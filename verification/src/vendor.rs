//! The silicon vendors, and the chip families that refine them.

use vstd::prelude::*;

verus! {

/// A silicon vendor: one folder of the description file repository.
#[allow(clippy::upper_case_acronyms)]
#[derive(Debug, PartialEq, Eq, Clone, Copy, Hash, Structural)]
pub enum Vendor {
    Atmel,
    Freescale,
    Fujitsu,
    Holtek,
    Microchip,
    Nordic,
    Nuvoton,
    NXP,
    SiliconLabs,
    Spansion,
    STMicro,
    Toshiba,
    SiFive,
    TexasInstruments,
    Espressif,
    Unknown,
}

/// A chip family. Every family but `Unknown` belongs to exactly one vendor,
/// and several families may share one.
#[allow(clippy::upper_case_acronyms)]
#[derive(Debug, PartialOrd, Ord, PartialEq, Eq, Clone, Copy, Hash, Structural)]
pub enum Group {
    Atmel,
    Freescale,
    Fujitsu,
    FujitsuMB9AF1,
    FujitsuMB9AF3,
    FujitsuMB9AF4,
    FujitsuMB9AFA,
    FujitsuMB9AFB,
    FujitsuMB9B,
    FujitsuMB9BF1,
    FujitsuMB9BF2,
    FujitsuMB9BF3,
    FujitsuMB9BF4,
    FujitsuMB9BF5,
    FujitsuMB9BF6,
    FujitsuMB9BFD,
    Holtek,
    Microchip,
    Nordic,
    Nuvoton,
    NXP,
    SiliconLabs,
    Spansion,
    STMicroF0,
    STMicroF1,
    STMicroF2,
    STMicroF3,
    STMicroF4,
    STMicro,
    Toshiba,
    SiFive,
    TexasInstruments,
    Espressif,
    Unknown,
}

/// The vendor that a family belongs to: the fixed table, with no entry for
/// `Group::Unknown`.
pub open spec fn vendor_of(group: Group) -> Option<Vendor> {
    match group {
        Group::Atmel => Some(Vendor::Atmel),
        Group::Freescale => Some(Vendor::Freescale),
        Group::Fujitsu
        | Group::FujitsuMB9AF1
        | Group::FujitsuMB9AF3
        | Group::FujitsuMB9AF4
        | Group::FujitsuMB9AFA
        | Group::FujitsuMB9AFB
        | Group::FujitsuMB9B
        | Group::FujitsuMB9BF1
        | Group::FujitsuMB9BF2
        | Group::FujitsuMB9BF3
        | Group::FujitsuMB9BF4
        | Group::FujitsuMB9BF5
        | Group::FujitsuMB9BF6
        | Group::FujitsuMB9BFD => Some(Vendor::Fujitsu),
        Group::Holtek => Some(Vendor::Holtek),
        Group::Microchip => Some(Vendor::Microchip),
        Group::Nordic => Some(Vendor::Nordic),
        Group::Nuvoton => Some(Vendor::Nuvoton),
        Group::NXP => Some(Vendor::NXP),
        Group::SiliconLabs => Some(Vendor::SiliconLabs),
        Group::Spansion => Some(Vendor::Spansion),
        Group::STMicroF0
        | Group::STMicroF1
        | Group::STMicroF2
        | Group::STMicroF3
        | Group::STMicroF4
        | Group::STMicro => Some(Vendor::STMicro),
        Group::Toshiba | Group::SiFive => Some(Vendor::Toshiba),
        Group::TexasInstruments => Some(Vendor::TexasInstruments),
        Group::Espressif => Some(Vendor::Espressif),
        Group::Unknown => None,
    }
}

/// The table is total: `Group::Unknown` is the one family without a vendor,
/// and no family belongs to `Vendor::Unknown`.
pub proof fn lemma_vendor_of_is_total(group: Group)
    ensures
        vendor_of(group) is None <==> group == Group::Unknown,
        vendor_of(group) != Some(Vendor::Unknown),
{
}

/// The folder of the description file repository that holds a family's
/// files: its vendor's name. `Group::Unknown` has none.
pub open spec fn repo_folder(group: Group) -> Option<Seq<char>> {
    match vendor_of(group) {
        Some(vendor) => Some(vendor.name()),
        None => None,
    }
}

impl Vendor {
    /// The vendor's external form: its declared name, letter for letter.
    pub open spec fn name(self) -> Seq<char> {
        match self {
            Vendor::Atmel => "Atmel"@,
            Vendor::Freescale => "Freescale"@,
            Vendor::Fujitsu => "Fujitsu"@,
            Vendor::Holtek => "Holtek"@,
            Vendor::Microchip => "Microchip"@,
            Vendor::Nordic => "Nordic"@,
            Vendor::Nuvoton => "Nuvoton"@,
            Vendor::NXP => "NXP"@,
            Vendor::SiliconLabs => "SiliconLabs"@,
            Vendor::Spansion => "Spansion"@,
            Vendor::STMicro => "STMicro"@,
            Vendor::Toshiba => "Toshiba"@,
            Vendor::SiFive => "SiFive"@,
            Vendor::TexasInstruments => "TexasInstruments"@,
            Vendor::Espressif => "Espressif"@,
            Vendor::Unknown => "Unknown"@,
        }
    }

    /// The vendor's place in the order of declaration.
    pub open spec fn ordinal(self) -> int {
        match self {
            Vendor::Atmel => 0,
            Vendor::Freescale => 1,
            Vendor::Fujitsu => 2,
            Vendor::Holtek => 3,
            Vendor::Microchip => 4,
            Vendor::Nordic => 5,
            Vendor::Nuvoton => 6,
            Vendor::NXP => 7,
            Vendor::SiliconLabs => 8,
            Vendor::Spansion => 9,
            Vendor::STMicro => 10,
            Vendor::Toshiba => 11,
            Vendor::SiFive => 12,
            Vendor::TexasInstruments => 13,
            Vendor::Espressif => 14,
            Vendor::Unknown => 15,
        }
    }

    /// The declared name, for display and as a path segment.
    pub fn as_str(&self) -> (name: &'static str)
        ensures
            name@ == self.name(),
    {
        match self {
            Vendor::Atmel => "Atmel",
            Vendor::Freescale => "Freescale",
            Vendor::Fujitsu => "Fujitsu",
            Vendor::Holtek => "Holtek",
            Vendor::Microchip => "Microchip",
            Vendor::Nordic => "Nordic",
            Vendor::Nuvoton => "Nuvoton",
            Vendor::NXP => "NXP",
            Vendor::SiliconLabs => "SiliconLabs",
            Vendor::Spansion => "Spansion",
            Vendor::STMicro => "STMicro",
            Vendor::Toshiba => "Toshiba",
            Vendor::SiFive => "SiFive",
            Vendor::TexasInstruments => "TexasInstruments",
            Vendor::Espressif => "Espressif",
            Vendor::Unknown => "Unknown",
        }
    }

    /// Every declared vendor, `Unknown` included, each once and in the order
    /// of declaration.
    pub fn all() -> (list: Vec<Vendor>)
        ensures
            list@.len() == 16,
            forall|i: int| 0 <= i < list@.len() ==> (#[trigger] list@[i]).ordinal() == i,
            forall|x: Vendor| #[trigger] list@.contains(x),
            list@.no_duplicates(),
    {
        let list = vec![
            Vendor::Atmel,
            Vendor::Freescale,
            Vendor::Fujitsu,
            Vendor::Holtek,
            Vendor::Microchip,
            Vendor::Nordic,
            Vendor::Nuvoton,
            Vendor::NXP,
            Vendor::SiliconLabs,
            Vendor::Spansion,
            Vendor::STMicro,
            Vendor::Toshiba,
            Vendor::SiFive,
            Vendor::TexasInstruments,
            Vendor::Espressif,
            Vendor::Unknown,
        ];
        proof {
            assert forall|x: Vendor| #[trigger] list@.contains(x) by {
                assert(list@[x.ordinal()] == x);
            }
        }
        list
    }
}

impl Group {
    /// Looks the family up in the table.
    pub fn vendor(&self) -> (vendor: Option<Vendor>)
        ensures
            vendor == vendor_of(*self),
            vendor is None <==> *self == Group::Unknown,
    {
        match self {
            Group::Atmel => Some(Vendor::Atmel),
            Group::Freescale => Some(Vendor::Freescale),
            Group::Fujitsu => Some(Vendor::Fujitsu),
            Group::FujitsuMB9AF1 => Some(Vendor::Fujitsu),
            Group::FujitsuMB9AF3 => Some(Vendor::Fujitsu),
            Group::FujitsuMB9AF4 => Some(Vendor::Fujitsu),
            Group::FujitsuMB9AFA => Some(Vendor::Fujitsu),
            Group::FujitsuMB9AFB => Some(Vendor::Fujitsu),
            Group::FujitsuMB9BF1 => Some(Vendor::Fujitsu),
            Group::FujitsuMB9BF2 => Some(Vendor::Fujitsu),
            Group::FujitsuMB9BF3 => Some(Vendor::Fujitsu),
            Group::FujitsuMB9B => Some(Vendor::Fujitsu),
            Group::FujitsuMB9BF4 => Some(Vendor::Fujitsu),
            Group::FujitsuMB9BF5 => Some(Vendor::Fujitsu),
            Group::FujitsuMB9BF6 => Some(Vendor::Fujitsu),
            Group::FujitsuMB9BFD => Some(Vendor::Fujitsu),
            Group::Holtek => Some(Vendor::Holtek),
            Group::Microchip => Some(Vendor::Microchip),
            Group::Nordic => Some(Vendor::Nordic),
            Group::Nuvoton => Some(Vendor::Nuvoton),
            Group::NXP => Some(Vendor::NXP),
            Group::SiliconLabs => Some(Vendor::SiliconLabs),
            Group::Spansion => Some(Vendor::Spansion),
            Group::STMicroF0 => Some(Vendor::STMicro),
            Group::STMicroF1 => Some(Vendor::STMicro),
            Group::STMicroF2 => Some(Vendor::STMicro),
            Group::STMicroF3 => Some(Vendor::STMicro),
            Group::STMicroF4 => Some(Vendor::STMicro),
            Group::STMicro => Some(Vendor::STMicro),
            Group::Toshiba => Some(Vendor::Toshiba),
            Group::SiFive => Some(Vendor::Toshiba),
            Group::TexasInstruments => Some(Vendor::TexasInstruments),
            Group::Espressif => Some(Vendor::Espressif),
            Group::Unknown => None,
        }
    }

    /// The name of the family's folder in the description file repository,
    /// which is the vendor's declared name.
    pub fn name_in_cmsis_svd_repo_as_str(&self) -> (folder: Option<String>)
        ensures
            folder is None <==> *self == Group::Unknown,
            match folder {
                Some(name) => repo_folder(*self) == Some(name@),
                None => repo_folder(*self) is None,
            },
    {
        match self.vendor() {
            Some(vendor) => Some(vendor.as_str().to_owned()),
            None => None,
        }
    }

    /// The family's external form: its declared name, letter for letter.
    pub open spec fn name(self) -> Seq<char> {
        match self {
            Group::Atmel => "Atmel"@,
            Group::Freescale => "Freescale"@,
            Group::Fujitsu => "Fujitsu"@,
            Group::FujitsuMB9AF1 => "FujitsuMB9AF1"@,
            Group::FujitsuMB9AF3 => "FujitsuMB9AF3"@,
            Group::FujitsuMB9AF4 => "FujitsuMB9AF4"@,
            Group::FujitsuMB9AFA => "FujitsuMB9AFA"@,
            Group::FujitsuMB9AFB => "FujitsuMB9AFB"@,
            Group::FujitsuMB9B => "FujitsuMB9B"@,
            Group::FujitsuMB9BF1 => "FujitsuMB9BF1"@,
            Group::FujitsuMB9BF2 => "FujitsuMB9BF2"@,
            Group::FujitsuMB9BF3 => "FujitsuMB9BF3"@,
            Group::FujitsuMB9BF4 => "FujitsuMB9BF4"@,
            Group::FujitsuMB9BF5 => "FujitsuMB9BF5"@,
            Group::FujitsuMB9BF6 => "FujitsuMB9BF6"@,
            Group::FujitsuMB9BFD => "FujitsuMB9BFD"@,
            Group::Holtek => "Holtek"@,
            Group::Microchip => "Microchip"@,
            Group::Nordic => "Nordic"@,
            Group::Nuvoton => "Nuvoton"@,
            Group::NXP => "NXP"@,
            Group::SiliconLabs => "SiliconLabs"@,
            Group::Spansion => "Spansion"@,
            Group::STMicroF0 => "STMicroF0"@,
            Group::STMicroF1 => "STMicroF1"@,
            Group::STMicroF2 => "STMicroF2"@,
            Group::STMicroF3 => "STMicroF3"@,
            Group::STMicroF4 => "STMicroF4"@,
            Group::STMicro => "STMicro"@,
            Group::Toshiba => "Toshiba"@,
            Group::SiFive => "SiFive"@,
            Group::TexasInstruments => "TexasInstruments"@,
            Group::Espressif => "Espressif"@,
            Group::Unknown => "Unknown"@,
        }
    }

    /// The family's place in the order of declaration.
    pub open spec fn ordinal(self) -> int {
        match self {
            Group::Atmel => 0,
            Group::Freescale => 1,
            Group::Fujitsu => 2,
            Group::FujitsuMB9AF1 => 3,
            Group::FujitsuMB9AF3 => 4,
            Group::FujitsuMB9AF4 => 5,
            Group::FujitsuMB9AFA => 6,
            Group::FujitsuMB9AFB => 7,
            Group::FujitsuMB9B => 8,
            Group::FujitsuMB9BF1 => 9,
            Group::FujitsuMB9BF2 => 10,
            Group::FujitsuMB9BF3 => 11,
            Group::FujitsuMB9BF4 => 12,
            Group::FujitsuMB9BF5 => 13,
            Group::FujitsuMB9BF6 => 14,
            Group::FujitsuMB9BFD => 15,
            Group::Holtek => 16,
            Group::Microchip => 17,
            Group::Nordic => 18,
            Group::Nuvoton => 19,
            Group::NXP => 20,
            Group::SiliconLabs => 21,
            Group::Spansion => 22,
            Group::STMicroF0 => 23,
            Group::STMicroF1 => 24,
            Group::STMicroF2 => 25,
            Group::STMicroF3 => 26,
            Group::STMicroF4 => 27,
            Group::STMicro => 28,
            Group::Toshiba => 29,
            Group::SiFive => 30,
            Group::TexasInstruments => 31,
            Group::Espressif => 32,
            Group::Unknown => 33,
        }
    }

    /// The declared name, for display and as a path segment.
    pub fn as_str(&self) -> (name: &'static str)
        ensures
            name@ == self.name(),
    {
        match self {
            Group::Atmel => "Atmel",
            Group::Freescale => "Freescale",
            Group::Fujitsu => "Fujitsu",
            Group::FujitsuMB9AF1 => "FujitsuMB9AF1",
            Group::FujitsuMB9AF3 => "FujitsuMB9AF3",
            Group::FujitsuMB9AF4 => "FujitsuMB9AF4",
            Group::FujitsuMB9AFA => "FujitsuMB9AFA",
            Group::FujitsuMB9AFB => "FujitsuMB9AFB",
            Group::FujitsuMB9B => "FujitsuMB9B",
            Group::FujitsuMB9BF1 => "FujitsuMB9BF1",
            Group::FujitsuMB9BF2 => "FujitsuMB9BF2",
            Group::FujitsuMB9BF3 => "FujitsuMB9BF3",
            Group::FujitsuMB9BF4 => "FujitsuMB9BF4",
            Group::FujitsuMB9BF5 => "FujitsuMB9BF5",
            Group::FujitsuMB9BF6 => "FujitsuMB9BF6",
            Group::FujitsuMB9BFD => "FujitsuMB9BFD",
            Group::Holtek => "Holtek",
            Group::Microchip => "Microchip",
            Group::Nordic => "Nordic",
            Group::Nuvoton => "Nuvoton",
            Group::NXP => "NXP",
            Group::SiliconLabs => "SiliconLabs",
            Group::Spansion => "Spansion",
            Group::STMicroF0 => "STMicroF0",
            Group::STMicroF1 => "STMicroF1",
            Group::STMicroF2 => "STMicroF2",
            Group::STMicroF3 => "STMicroF3",
            Group::STMicroF4 => "STMicroF4",
            Group::STMicro => "STMicro",
            Group::Toshiba => "Toshiba",
            Group::SiFive => "SiFive",
            Group::TexasInstruments => "TexasInstruments",
            Group::Espressif => "Espressif",
            Group::Unknown => "Unknown",
        }
    }

    /// Every declared family, `Unknown` included, each once and in the order
    /// of declaration.
    pub fn all() -> (list: Vec<Group>)
        ensures
            list@.len() == 34,
            forall|i: int| 0 <= i < list@.len() ==> (#[trigger] list@[i]).ordinal() == i,
            forall|x: Group| #[trigger] list@.contains(x),
            list@.no_duplicates(),
    {
        let list = vec![
            Group::Atmel,
            Group::Freescale,
            Group::Fujitsu,
            Group::FujitsuMB9AF1,
            Group::FujitsuMB9AF3,
            Group::FujitsuMB9AF4,
            Group::FujitsuMB9AFA,
            Group::FujitsuMB9AFB,
            Group::FujitsuMB9B,
            Group::FujitsuMB9BF1,
            Group::FujitsuMB9BF2,
            Group::FujitsuMB9BF3,
            Group::FujitsuMB9BF4,
            Group::FujitsuMB9BF5,
            Group::FujitsuMB9BF6,
            Group::FujitsuMB9BFD,
            Group::Holtek,
            Group::Microchip,
            Group::Nordic,
            Group::Nuvoton,
            Group::NXP,
            Group::SiliconLabs,
            Group::Spansion,
            Group::STMicroF0,
            Group::STMicroF1,
            Group::STMicroF2,
            Group::STMicroF3,
            Group::STMicroF4,
            Group::STMicro,
            Group::Toshiba,
            Group::SiFive,
            Group::TexasInstruments,
            Group::Espressif,
            Group::Unknown,
        ];
        proof {
            assert forall|x: Group| #[trigger] list@.contains(x) by {
                assert(list@[x.ordinal()] == x);
            }
        }
        list
    }
}

/// No family's name holds a `.`.
pub proof fn lemma_group_name_has_no_dot(group: Group)
    ensures
        !group.name().contains('.'),
{
    match group {
        Group::Atmel => reveal_strlit("Atmel"),
        Group::Freescale => reveal_strlit("Freescale"),
        Group::Fujitsu => reveal_strlit("Fujitsu"),
        Group::FujitsuMB9AF1 => reveal_strlit("FujitsuMB9AF1"),
        Group::FujitsuMB9AF3 => reveal_strlit("FujitsuMB9AF3"),
        Group::FujitsuMB9AF4 => reveal_strlit("FujitsuMB9AF4"),
        Group::FujitsuMB9AFA => reveal_strlit("FujitsuMB9AFA"),
        Group::FujitsuMB9AFB => reveal_strlit("FujitsuMB9AFB"),
        Group::FujitsuMB9B => reveal_strlit("FujitsuMB9B"),
        Group::FujitsuMB9BF1 => reveal_strlit("FujitsuMB9BF1"),
        Group::FujitsuMB9BF2 => reveal_strlit("FujitsuMB9BF2"),
        Group::FujitsuMB9BF3 => reveal_strlit("FujitsuMB9BF3"),
        Group::FujitsuMB9BF4 => reveal_strlit("FujitsuMB9BF4"),
        Group::FujitsuMB9BF5 => reveal_strlit("FujitsuMB9BF5"),
        Group::FujitsuMB9BF6 => reveal_strlit("FujitsuMB9BF6"),
        Group::FujitsuMB9BFD => reveal_strlit("FujitsuMB9BFD"),
        Group::Holtek => reveal_strlit("Holtek"),
        Group::Microchip => reveal_strlit("Microchip"),
        Group::Nordic => reveal_strlit("Nordic"),
        Group::Nuvoton => reveal_strlit("Nuvoton"),
        Group::NXP => reveal_strlit("NXP"),
        Group::SiliconLabs => reveal_strlit("SiliconLabs"),
        Group::Spansion => reveal_strlit("Spansion"),
        Group::STMicroF0 => reveal_strlit("STMicroF0"),
        Group::STMicroF1 => reveal_strlit("STMicroF1"),
        Group::STMicroF2 => reveal_strlit("STMicroF2"),
        Group::STMicroF3 => reveal_strlit("STMicroF3"),
        Group::STMicroF4 => reveal_strlit("STMicroF4"),
        Group::STMicro => reveal_strlit("STMicro"),
        Group::Toshiba => reveal_strlit("Toshiba"),
        Group::SiFive => reveal_strlit("SiFive"),
        Group::TexasInstruments => reveal_strlit("TexasInstruments"),
        Group::Espressif => reveal_strlit("Espressif"),
        Group::Unknown => reveal_strlit("Unknown"),
    }
}

} // verus!
