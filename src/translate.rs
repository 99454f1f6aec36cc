//! Translation of codons into amino acids and into their roles, by the NCBI
//! genetic codes.
//!
//! Each code is a value of [`NCBITransTable`]; the choice of code is always
//! handed in by the caller.
use std::marker::PhantomData;
use vstd::prelude::*;

use crate::aa::AA;
use crate::alphabet::Alphabet;
use crate::codon::Codon;
use crate::dna::DNA;
use crate::dna4::DNA4;
use crate::matcher::{Match, RedundantAlphabet};
use crate::gapped::Gapped;
use crate::stopped::Stopped;
use crate::tables::{CODONS_STANDARD, CODONS_VERTEBRATE_MITO, CODONS_YEAST_MITO, CODONS_MOLD_PROTOZOAN_COELENTERATE_MITO, CODONS_INVERTEBRATE_MITO, CODONS_CILIATE_DASYCLADACEAN_HEXAMITA, CODONS_ECHINODERM_FLATWORM_MITO, CODONS_EUPLOTID, CODONS_BACTERIAL_ARCHAEAL_PLASTID, CODONS_ALT_YEAST, CODONS_ASCIDIAN_MITO, CODONS_ALT_FLATWORM_MITO, CODONS_BLEPHARISMA_MACRONUCLEAR, CODONS_CHLOROPHYCEAN_MITO, CODONS_TREMATODE_MITO, CODONS_SCENEDESMUS_MITO, CODONS_THRAUSTOCHYTRIUM_MITO, CODONS_PTEROBRANCHIA_MITO, CODONS_S_R1_GRACILIBACTERIA, CODONS_PACHYSOLEN, CODONS_KARYORELICT, CODONS_CONDYLOSTOMA, CODONS_MESODINIUM, CODONS_PERITRICH, CODONS_BLASTOCRITHIDIA, CODONS_BALANOPHORACEAE_PLASTID, CODONS_CEPHALODISCIDAE_MITO, TAGS_STANDARD, TAGS_VERTEBRATE_MITO, TAGS_YEAST_MITO, TAGS_MOLD_PROTOZOAN_COELENTERATE_MITO, TAGS_INVERTEBRATE_MITO, TAGS_CILIATE_DASYCLADACEAN_HEXAMITA, TAGS_ECHINODERM_FLATWORM_MITO, TAGS_EUPLOTID, TAGS_BACTERIAL_ARCHAEAL_PLASTID, TAGS_ALT_YEAST, TAGS_ASCIDIAN_MITO, TAGS_ALT_FLATWORM_MITO, TAGS_BLEPHARISMA_MACRONUCLEAR, TAGS_CHLOROPHYCEAN_MITO, TAGS_TREMATODE_MITO, TAGS_SCENEDESMUS_MITO, TAGS_THRAUSTOCHYTRIUM_MITO, TAGS_PTEROBRANCHIA_MITO, TAGS_S_R1_GRACILIBACTERIA, TAGS_PACHYSOLEN, TAGS_KARYORELICT, TAGS_CONDYLOSTOMA, TAGS_MESODINIUM, TAGS_PERITRICH, TAGS_BLASTOCRITHIDIA, TAGS_BALANOPHORACEAE_PLASTID, TAGS_CEPHALODISCIDAE_MITO};
use crate::tags::CodonTag;

verus! {

/// A mapping from keys to values, such as codons to amino acids.
pub trait TranslationTable<K, V> {
    spec fn spec_get(&self, k: &K) -> V;

    fn get(&self, k: &K) -> (r: V)
        ensures
            r == self.spec_get(k),
    ;
}

/// A mapping from codons to their roles in translation.
pub trait CodonTagTable<K, V> {
    spec fn spec_get_tag(&self, k: &K) -> V;

    fn get_tag(&self, k: &K) -> (r: V)
        ensures
            r == self.spec_get_tag(k),
    ;
}

/// The genetic codes published by the NCBI.
#[derive(Debug, Clone, Copy, PartialEq, Eq, Hash, Structural)]
pub enum NCBITransTable {
    Standard,
    VertebrateMito,
    YeastMito,
    MoldProtozoanCoelenterateMito,
    InvertebrateMito,
    CiliateDasycladaceanHexamita,
    EchinodermFlatwormMito,
    Euplotid,
    BacterialArchaealPlastid,
    AltYeast,
    AscidianMito,
    AltFlatwormMito,
    BlepharismaMacronuclear,
    ChlorophyceanMito,
    TrematodeMito,
    ScenedesmusMito,
    ThraustochytriumMito,
    PterobranchiaMito,
    SR1Gracilibacteria,
    Pachysolen,
    Karyorelict,
    Condylostoma,
    Mesodinium,
    Peritrich,
    Blastocrithidia,
    BalanophoraceaePlastid,
    CephalodiscidaeMito,
}

impl Default for NCBITransTable {
    /// The standard code.
    fn default() -> (r: NCBITransTable)
        ensures
            r == NCBITransTable::Standard,
    {
        NCBITransTable::Standard
    }
}

/// The translation table of a code.
pub open spec fn spec_codons(t: NCBITransTable) -> [u8; 64] {
    match t {
        NCBITransTable::Standard => CODONS_STANDARD,
        NCBITransTable::VertebrateMito => CODONS_VERTEBRATE_MITO,
        NCBITransTable::YeastMito => CODONS_YEAST_MITO,
        NCBITransTable::MoldProtozoanCoelenterateMito => CODONS_MOLD_PROTOZOAN_COELENTERATE_MITO,
        NCBITransTable::InvertebrateMito => CODONS_INVERTEBRATE_MITO,
        NCBITransTable::CiliateDasycladaceanHexamita => CODONS_CILIATE_DASYCLADACEAN_HEXAMITA,
        NCBITransTable::EchinodermFlatwormMito => CODONS_ECHINODERM_FLATWORM_MITO,
        NCBITransTable::Euplotid => CODONS_EUPLOTID,
        NCBITransTable::BacterialArchaealPlastid => CODONS_BACTERIAL_ARCHAEAL_PLASTID,
        NCBITransTable::AltYeast => CODONS_ALT_YEAST,
        NCBITransTable::AscidianMito => CODONS_ASCIDIAN_MITO,
        NCBITransTable::AltFlatwormMito => CODONS_ALT_FLATWORM_MITO,
        NCBITransTable::BlepharismaMacronuclear => CODONS_BLEPHARISMA_MACRONUCLEAR,
        NCBITransTable::ChlorophyceanMito => CODONS_CHLOROPHYCEAN_MITO,
        NCBITransTable::TrematodeMito => CODONS_TREMATODE_MITO,
        NCBITransTable::ScenedesmusMito => CODONS_SCENEDESMUS_MITO,
        NCBITransTable::ThraustochytriumMito => CODONS_THRAUSTOCHYTRIUM_MITO,
        NCBITransTable::PterobranchiaMito => CODONS_PTEROBRANCHIA_MITO,
        NCBITransTable::SR1Gracilibacteria => CODONS_S_R1_GRACILIBACTERIA,
        NCBITransTable::Pachysolen => CODONS_PACHYSOLEN,
        NCBITransTable::Karyorelict => CODONS_KARYORELICT,
        NCBITransTable::Condylostoma => CODONS_CONDYLOSTOMA,
        NCBITransTable::Mesodinium => CODONS_MESODINIUM,
        NCBITransTable::Peritrich => CODONS_PERITRICH,
        NCBITransTable::Blastocrithidia => CODONS_BLASTOCRITHIDIA,
        NCBITransTable::BalanophoraceaePlastid => CODONS_BALANOPHORACEAE_PLASTID,
        NCBITransTable::CephalodiscidaeMito => CODONS_CEPHALODISCIDAE_MITO,
    }
}

/// The tag table of a code.
pub open spec fn spec_tags(t: NCBITransTable) -> [u8; 64] {
    match t {
        NCBITransTable::Standard => TAGS_STANDARD,
        NCBITransTable::VertebrateMito => TAGS_VERTEBRATE_MITO,
        NCBITransTable::YeastMito => TAGS_YEAST_MITO,
        NCBITransTable::MoldProtozoanCoelenterateMito => TAGS_MOLD_PROTOZOAN_COELENTERATE_MITO,
        NCBITransTable::InvertebrateMito => TAGS_INVERTEBRATE_MITO,
        NCBITransTable::CiliateDasycladaceanHexamita => TAGS_CILIATE_DASYCLADACEAN_HEXAMITA,
        NCBITransTable::EchinodermFlatwormMito => TAGS_ECHINODERM_FLATWORM_MITO,
        NCBITransTable::Euplotid => TAGS_EUPLOTID,
        NCBITransTable::BacterialArchaealPlastid => TAGS_BACTERIAL_ARCHAEAL_PLASTID,
        NCBITransTable::AltYeast => TAGS_ALT_YEAST,
        NCBITransTable::AscidianMito => TAGS_ASCIDIAN_MITO,
        NCBITransTable::AltFlatwormMito => TAGS_ALT_FLATWORM_MITO,
        NCBITransTable::BlepharismaMacronuclear => TAGS_BLEPHARISMA_MACRONUCLEAR,
        NCBITransTable::ChlorophyceanMito => TAGS_CHLOROPHYCEAN_MITO,
        NCBITransTable::TrematodeMito => TAGS_TREMATODE_MITO,
        NCBITransTable::ScenedesmusMito => TAGS_SCENEDESMUS_MITO,
        NCBITransTable::ThraustochytriumMito => TAGS_THRAUSTOCHYTRIUM_MITO,
        NCBITransTable::PterobranchiaMito => TAGS_PTEROBRANCHIA_MITO,
        NCBITransTable::SR1Gracilibacteria => TAGS_S_R1_GRACILIBACTERIA,
        NCBITransTable::Pachysolen => TAGS_PACHYSOLEN,
        NCBITransTable::Karyorelict => TAGS_KARYORELICT,
        NCBITransTable::Condylostoma => TAGS_CONDYLOSTOMA,
        NCBITransTable::Mesodinium => TAGS_MESODINIUM,
        NCBITransTable::Peritrich => TAGS_PERITRICH,
        NCBITransTable::Blastocrithidia => TAGS_BLASTOCRITHIDIA,
        NCBITransTable::BalanophoraceaePlastid => TAGS_BALANOPHORACEAE_PLASTID,
        NCBITransTable::CephalodiscidaeMito => TAGS_CEPHALODISCIDAE_MITO,
    }
}

/// The NCBI number of a code.
pub open spec fn spec_id(t: NCBITransTable) -> usize {
    match t {
        NCBITransTable::Standard => 1,
        NCBITransTable::VertebrateMito => 2,
        NCBITransTable::YeastMito => 3,
        NCBITransTable::MoldProtozoanCoelenterateMito => 4,
        NCBITransTable::InvertebrateMito => 5,
        NCBITransTable::CiliateDasycladaceanHexamita => 6,
        NCBITransTable::EchinodermFlatwormMito => 9,
        NCBITransTable::Euplotid => 10,
        NCBITransTable::BacterialArchaealPlastid => 11,
        NCBITransTable::AltYeast => 12,
        NCBITransTable::AscidianMito => 13,
        NCBITransTable::AltFlatwormMito => 14,
        NCBITransTable::BlepharismaMacronuclear => 15,
        NCBITransTable::ChlorophyceanMito => 16,
        NCBITransTable::TrematodeMito => 21,
        NCBITransTable::ScenedesmusMito => 22,
        NCBITransTable::ThraustochytriumMito => 23,
        NCBITransTable::PterobranchiaMito => 24,
        NCBITransTable::SR1Gracilibacteria => 25,
        NCBITransTable::Pachysolen => 26,
        NCBITransTable::Karyorelict => 27,
        NCBITransTable::Condylostoma => 28,
        NCBITransTable::Mesodinium => 29,
        NCBITransTable::Peritrich => 30,
        NCBITransTable::Blastocrithidia => 31,
        NCBITransTable::BalanophoraceaePlastid => 32,
        NCBITransTable::CephalodiscidaeMito => 33,
    }
}

/// The code with an NCBI number, if any.
pub open spec fn spec_id_to_table(id: usize) -> Option<NCBITransTable> {
        if id == 1 {
            Some(NCBITransTable::Standard)
        } else if id == 2 {
            Some(NCBITransTable::VertebrateMito)
        } else if id == 3 {
            Some(NCBITransTable::YeastMito)
        } else if id == 4 {
            Some(NCBITransTable::MoldProtozoanCoelenterateMito)
        } else if id == 5 {
            Some(NCBITransTable::InvertebrateMito)
        } else if id == 6 {
            Some(NCBITransTable::CiliateDasycladaceanHexamita)
        } else if id == 9 {
            Some(NCBITransTable::EchinodermFlatwormMito)
        } else if id == 10 {
            Some(NCBITransTable::Euplotid)
        } else if id == 11 {
            Some(NCBITransTable::BacterialArchaealPlastid)
        } else if id == 12 {
            Some(NCBITransTable::AltYeast)
        } else if id == 13 {
            Some(NCBITransTable::AscidianMito)
        } else if id == 14 {
            Some(NCBITransTable::AltFlatwormMito)
        } else if id == 15 {
            Some(NCBITransTable::BlepharismaMacronuclear)
        } else if id == 16 {
            Some(NCBITransTable::ChlorophyceanMito)
        } else if id == 21 {
            Some(NCBITransTable::TrematodeMito)
        } else if id == 22 {
            Some(NCBITransTable::ScenedesmusMito)
        } else if id == 23 {
            Some(NCBITransTable::ThraustochytriumMito)
        } else if id == 24 {
            Some(NCBITransTable::PterobranchiaMito)
        } else if id == 25 {
            Some(NCBITransTable::SR1Gracilibacteria)
        } else if id == 26 {
            Some(NCBITransTable::Pachysolen)
        } else if id == 27 {
            Some(NCBITransTable::Karyorelict)
        } else if id == 28 {
            Some(NCBITransTable::Condylostoma)
        } else if id == 29 {
            Some(NCBITransTable::Mesodinium)
        } else if id == 30 {
            Some(NCBITransTable::Peritrich)
        } else if id == 31 {
            Some(NCBITransTable::Blastocrithidia)
        } else if id == 32 {
            Some(NCBITransTable::BalanophoraceaePlastid)
        } else if id == 33 {
            Some(NCBITransTable::CephalodiscidaeMito)
        } else {
            None
        }
}

/// What a byte of a translation table stands for.
pub open spec fn spec_decode_residue(c: u8) -> Stopped<AA> {
    if c == 42 {
        Stopped::Stop
    } else if 97 <= c <= 122 {
        Stopped::StopOr(AA::spec_from_rank((c - 97) as nat))
    } else {
        Stopped::Res(AA::spec_from_rank((c - 65) as nat))
    }
}

/// What a mask of a tag table stands for.
pub open spec fn spec_decode_tag(c: u8) -> CodonTag {
    CodonTag::spec_from_mask(c)
}

/// Are all the bytes of a translation table a letter or `*`?
pub open spec fn residues_well_formed(codes: [u8; 64]) -> bool {
    forall|i: int|
        0 <= i < 64 ==> #[trigger] codes@[i] == 42 || (97 <= codes@[i] <= 122) || (65 <= codes@[i]
            <= 90)
}

/// Are all the masks of a tag table between 1 and 7?
pub open spec fn tags_well_formed(codes: [u8; 64]) -> bool {
    forall|i: int| 0 <= i < 64 ==> 1 <= #[trigger] codes@[i] <= 7
}

fn decode_residue(c: u8) -> (r: Stopped<AA>)
    requires
        c == 42 || (97 <= c <= 122) || (65 <= c <= 90),
    ensures
        r == spec_decode_residue(c),
{
    if c == 42 {
        Stopped::Stop
    } else if 97 <= c && c <= 122 {
        let k = (c - 97) as usize;
        proof {
            AA::lemma_from_rank(k as nat);
        }
        match AA::from_rank(k) {
            Some(a) => Stopped::StopOr(a),
            None => unreached(),
        }
    } else {
        let k = (c - 65) as usize;
        proof {
            AA::lemma_from_rank(k as nat);
        }
        match AA::from_rank(k) {
            Some(a) => Stopped::Res(a),
            None => unreached(),
        }
    }
}

fn decode_tag(c: u8) -> (r: CodonTag)
    requires
        1 <= c <= 7,
    ensures
        r == spec_decode_tag(c),
{
    CodonTag::from_bits(c)
}

impl NCBITransTable {
    /// Every code, in the order of their NCBI numbers.
    pub fn variants() -> (r: Vec<NCBITransTable>)
        ensures
            r@.len() == 27,
            forall|t: NCBITransTable| r@.contains(t),
            forall|i: int, j: int| 0 <= i < j < 27 ==> spec_id(r@[i]) < spec_id(r@[j]),
    {
        let r = vec![
            NCBITransTable::Standard,
            NCBITransTable::VertebrateMito,
            NCBITransTable::YeastMito,
            NCBITransTable::MoldProtozoanCoelenterateMito,
            NCBITransTable::InvertebrateMito,
            NCBITransTable::CiliateDasycladaceanHexamita,
            NCBITransTable::EchinodermFlatwormMito,
            NCBITransTable::Euplotid,
            NCBITransTable::BacterialArchaealPlastid,
            NCBITransTable::AltYeast,
            NCBITransTable::AscidianMito,
            NCBITransTable::AltFlatwormMito,
            NCBITransTable::BlepharismaMacronuclear,
            NCBITransTable::ChlorophyceanMito,
            NCBITransTable::TrematodeMito,
            NCBITransTable::ScenedesmusMito,
            NCBITransTable::ThraustochytriumMito,
            NCBITransTable::PterobranchiaMito,
            NCBITransTable::SR1Gracilibacteria,
            NCBITransTable::Pachysolen,
            NCBITransTable::Karyorelict,
            NCBITransTable::Condylostoma,
            NCBITransTable::Mesodinium,
            NCBITransTable::Peritrich,
            NCBITransTable::Blastocrithidia,
            NCBITransTable::BalanophoraceaePlastid,
            NCBITransTable::CephalodiscidaeMito,
        ];
        proof {
            assert forall|t: NCBITransTable| r@.contains(t) by {
                let i = choose|i: int| 0 <= i < 27 && r@[i] == t;
            }
        }
        r
    }

    /// The code with a given NCBI number, or `None` for a number that names no
    /// code (7, 8, 17 to 20, and any beyond 33).
    pub fn id_to_table(id: usize) -> (r: Option<NCBITransTable>)
        ensures
            r == spec_id_to_table(id),
    {
        match id {
            1 => Some(NCBITransTable::Standard),
            2 => Some(NCBITransTable::VertebrateMito),
            3 => Some(NCBITransTable::YeastMito),
            4 => Some(NCBITransTable::MoldProtozoanCoelenterateMito),
            5 => Some(NCBITransTable::InvertebrateMito),
            6 => Some(NCBITransTable::CiliateDasycladaceanHexamita),
            9 => Some(NCBITransTable::EchinodermFlatwormMito),
            10 => Some(NCBITransTable::Euplotid),
            11 => Some(NCBITransTable::BacterialArchaealPlastid),
            12 => Some(NCBITransTable::AltYeast),
            13 => Some(NCBITransTable::AscidianMito),
            14 => Some(NCBITransTable::AltFlatwormMito),
            15 => Some(NCBITransTable::BlepharismaMacronuclear),
            16 => Some(NCBITransTable::ChlorophyceanMito),
            21 => Some(NCBITransTable::TrematodeMito),
            22 => Some(NCBITransTable::ScenedesmusMito),
            23 => Some(NCBITransTable::ThraustochytriumMito),
            24 => Some(NCBITransTable::PterobranchiaMito),
            25 => Some(NCBITransTable::SR1Gracilibacteria),
            26 => Some(NCBITransTable::Pachysolen),
            27 => Some(NCBITransTable::Karyorelict),
            28 => Some(NCBITransTable::Condylostoma),
            29 => Some(NCBITransTable::Mesodinium),
            30 => Some(NCBITransTable::Peritrich),
            31 => Some(NCBITransTable::Blastocrithidia),
            32 => Some(NCBITransTable::BalanophoraceaePlastid),
            33 => Some(NCBITransTable::CephalodiscidaeMito),
            _ => None,
        }
    }

    /// The NCBI number of the code.
    pub fn id(&self) -> (r: usize)
        ensures
            r == spec_id(*self),
    {
        match self {
            NCBITransTable::Standard => 1,
            NCBITransTable::VertebrateMito => 2,
            NCBITransTable::YeastMito => 3,
            NCBITransTable::MoldProtozoanCoelenterateMito => 4,
            NCBITransTable::InvertebrateMito => 5,
            NCBITransTable::CiliateDasycladaceanHexamita => 6,
            NCBITransTable::EchinodermFlatwormMito => 9,
            NCBITransTable::Euplotid => 10,
            NCBITransTable::BacterialArchaealPlastid => 11,
            NCBITransTable::AltYeast => 12,
            NCBITransTable::AscidianMito => 13,
            NCBITransTable::AltFlatwormMito => 14,
            NCBITransTable::BlepharismaMacronuclear => 15,
            NCBITransTable::ChlorophyceanMito => 16,
            NCBITransTable::TrematodeMito => 21,
            NCBITransTable::ScenedesmusMito => 22,
            NCBITransTable::ThraustochytriumMito => 23,
            NCBITransTable::PterobranchiaMito => 24,
            NCBITransTable::SR1Gracilibacteria => 25,
            NCBITransTable::Pachysolen => 26,
            NCBITransTable::Karyorelict => 27,
            NCBITransTable::Condylostoma => 28,
            NCBITransTable::Mesodinium => 29,
            NCBITransTable::Peritrich => 30,
            NCBITransTable::Blastocrithidia => 31,
            NCBITransTable::BalanophoraceaePlastid => 32,
            NCBITransTable::CephalodiscidaeMito => 33,
        }
    }

    /// The translation table of the code.
    pub fn codons(&self) -> (r: [u8; 64])
        ensures
            r == spec_codons(*self),
    {
        match self {
            NCBITransTable::Standard => CODONS_STANDARD,
            NCBITransTable::VertebrateMito => CODONS_VERTEBRATE_MITO,
            NCBITransTable::YeastMito => CODONS_YEAST_MITO,
            NCBITransTable::MoldProtozoanCoelenterateMito => CODONS_MOLD_PROTOZOAN_COELENTERATE_MITO,
            NCBITransTable::InvertebrateMito => CODONS_INVERTEBRATE_MITO,
            NCBITransTable::CiliateDasycladaceanHexamita => CODONS_CILIATE_DASYCLADACEAN_HEXAMITA,
            NCBITransTable::EchinodermFlatwormMito => CODONS_ECHINODERM_FLATWORM_MITO,
            NCBITransTable::Euplotid => CODONS_EUPLOTID,
            NCBITransTable::BacterialArchaealPlastid => CODONS_BACTERIAL_ARCHAEAL_PLASTID,
            NCBITransTable::AltYeast => CODONS_ALT_YEAST,
            NCBITransTable::AscidianMito => CODONS_ASCIDIAN_MITO,
            NCBITransTable::AltFlatwormMito => CODONS_ALT_FLATWORM_MITO,
            NCBITransTable::BlepharismaMacronuclear => CODONS_BLEPHARISMA_MACRONUCLEAR,
            NCBITransTable::ChlorophyceanMito => CODONS_CHLOROPHYCEAN_MITO,
            NCBITransTable::TrematodeMito => CODONS_TREMATODE_MITO,
            NCBITransTable::ScenedesmusMito => CODONS_SCENEDESMUS_MITO,
            NCBITransTable::ThraustochytriumMito => CODONS_THRAUSTOCHYTRIUM_MITO,
            NCBITransTable::PterobranchiaMito => CODONS_PTEROBRANCHIA_MITO,
            NCBITransTable::SR1Gracilibacteria => CODONS_S_R1_GRACILIBACTERIA,
            NCBITransTable::Pachysolen => CODONS_PACHYSOLEN,
            NCBITransTable::Karyorelict => CODONS_KARYORELICT,
            NCBITransTable::Condylostoma => CODONS_CONDYLOSTOMA,
            NCBITransTable::Mesodinium => CODONS_MESODINIUM,
            NCBITransTable::Peritrich => CODONS_PERITRICH,
            NCBITransTable::Blastocrithidia => CODONS_BLASTOCRITHIDIA,
            NCBITransTable::BalanophoraceaePlastid => CODONS_BALANOPHORACEAE_PLASTID,
            NCBITransTable::CephalodiscidaeMito => CODONS_CEPHALODISCIDAE_MITO,
        }
    }

    /// The tag table of the code.
    pub fn tags(&self) -> (r: [u8; 64])
        ensures
            r == spec_tags(*self),
    {
        match self {
            NCBITransTable::Standard => TAGS_STANDARD,
            NCBITransTable::VertebrateMito => TAGS_VERTEBRATE_MITO,
            NCBITransTable::YeastMito => TAGS_YEAST_MITO,
            NCBITransTable::MoldProtozoanCoelenterateMito => TAGS_MOLD_PROTOZOAN_COELENTERATE_MITO,
            NCBITransTable::InvertebrateMito => TAGS_INVERTEBRATE_MITO,
            NCBITransTable::CiliateDasycladaceanHexamita => TAGS_CILIATE_DASYCLADACEAN_HEXAMITA,
            NCBITransTable::EchinodermFlatwormMito => TAGS_ECHINODERM_FLATWORM_MITO,
            NCBITransTable::Euplotid => TAGS_EUPLOTID,
            NCBITransTable::BacterialArchaealPlastid => TAGS_BACTERIAL_ARCHAEAL_PLASTID,
            NCBITransTable::AltYeast => TAGS_ALT_YEAST,
            NCBITransTable::AscidianMito => TAGS_ASCIDIAN_MITO,
            NCBITransTable::AltFlatwormMito => TAGS_ALT_FLATWORM_MITO,
            NCBITransTable::BlepharismaMacronuclear => TAGS_BLEPHARISMA_MACRONUCLEAR,
            NCBITransTable::ChlorophyceanMito => TAGS_CHLOROPHYCEAN_MITO,
            NCBITransTable::TrematodeMito => TAGS_TREMATODE_MITO,
            NCBITransTable::ScenedesmusMito => TAGS_SCENEDESMUS_MITO,
            NCBITransTable::ThraustochytriumMito => TAGS_THRAUSTOCHYTRIUM_MITO,
            NCBITransTable::PterobranchiaMito => TAGS_PTEROBRANCHIA_MITO,
            NCBITransTable::SR1Gracilibacteria => TAGS_S_R1_GRACILIBACTERIA,
            NCBITransTable::Pachysolen => TAGS_PACHYSOLEN,
            NCBITransTable::Karyorelict => TAGS_KARYORELICT,
            NCBITransTable::Condylostoma => TAGS_CONDYLOSTOMA,
            NCBITransTable::Mesodinium => TAGS_MESODINIUM,
            NCBITransTable::Peritrich => TAGS_PERITRICH,
            NCBITransTable::Blastocrithidia => TAGS_BLASTOCRITHIDIA,
            NCBITransTable::BalanophoraceaePlastid => TAGS_BALANOPHORACEAE_PLASTID,
            NCBITransTable::CephalodiscidaeMito => TAGS_CEPHALODISCIDAE_MITO,
        }
    }
}

impl TranslationTable<Codon<DNA4>, Stopped<AA>> for NCBITransTable {
    open spec fn spec_get(&self, k: &Codon<DNA4>) -> Stopped<AA> {
        spec_decode_residue(spec_codons(*self)@[k.spec_rank() as int])
    }

    fn get(&self, k: &Codon<DNA4>) -> (r: Stopped<AA>) {
        let index = k.rank();
        let codes = self.codons();
        proof {
            lemma_tables_well_formed(*self);
            assert(Codon::<DNA4>::spec_cardinality() == 64) by (nonlinear_arith)
                requires
                    DNA4::spec_cardinality() == 4,
            ;
        }
        decode_residue(codes[index])
    }
}

impl CodonTagTable<Codon<DNA4>, CodonTag> for NCBITransTable {
    open spec fn spec_get_tag(&self, k: &Codon<DNA4>) -> CodonTag {
        spec_decode_tag(spec_tags(*self)@[k.spec_rank() as int])
    }

    fn get_tag(&self, k: &Codon<DNA4>) -> (r: CodonTag) {
        let index = k.rank();
        let codes = self.tags();
        proof {
            lemma_tables_well_formed(*self);
            assert(Codon::<DNA4>::spec_cardinality() == 64) by (nonlinear_arith)
                requires
                    DNA4::spec_cardinality() == 4,
            ;
        }
        decode_tag(codes[index])
    }
}

impl TranslationTable<Gapped<Codon<DNA4>>, Gapped<Stopped<AA>>> for NCBITransTable {
    open spec fn spec_get(&self, k: &Gapped<Codon<DNA4>>) -> Gapped<Stopped<AA>> {
        match k {
            Gapped::Base(c) => Gapped::Base(
                <NCBITransTable as TranslationTable<Codon<DNA4>, Stopped<AA>>>::spec_get(self, c),
            ),
            Gapped::Gap => Gapped::Gap,
        }
    }

    fn get(&self, k: &Gapped<Codon<DNA4>>) -> (r: Gapped<Stopped<AA>>) {
        match k {
            Gapped::Base(c) => Gapped::Base(self.get(c)),
            Gapped::Gap => Gapped::Gap,
        }
    }
}

impl CodonTagTable<Gapped<Codon<DNA4>>, Gapped<CodonTag>> for NCBITransTable {
    open spec fn spec_get_tag(&self, k: &Gapped<Codon<DNA4>>) -> Gapped<CodonTag> {
        match k {
            Gapped::Base(c) => Gapped::Base(
                <NCBITransTable as CodonTagTable<Codon<DNA4>, CodonTag>>::spec_get_tag(self, c),
            ),
            Gapped::Gap => Gapped::Gap,
        }
    }

    fn get_tag(&self, k: &Gapped<Codon<DNA4>>) -> (r: Gapped<CodonTag>) {
        match k {
            Gapped::Base(c) => Gapped::Base(self.get_tag(c)),
            Gapped::Gap => Gapped::Gap,
        }
    }
}

/// The concrete codon of a rank below 64.
pub open spec fn spec_codon_of_rank(k: int) -> Codon<DNA4> {
    Codon(
        DNA4::spec_from_rank((k / 16) as nat),
        DNA4::spec_from_rank(((k / 4) % 4) as nat),
        DNA4::spec_from_rank((k % 4) as nat),
    )
}

/// Does the codon of redundant nucleotides `c` stand for the concrete codon `x`?
pub open spec fn spec_stands_for(c: Codon<DNA>, x: Codon<DNA4>) -> bool {
    c.0.spec_matches(&x.0.spec_to_dna()) && c.1.spec_matches(&x.1.spec_to_dna())
        && c.2.spec_matches(&x.2.spec_to_dna())
}

/// The union of the roles of the concrete codons of rank below `n` that `c`
/// stands for; `None` where there is none.
pub open spec fn spec_tags_upto(t: NCBITransTable, c: Codon<DNA>, n: nat) -> Option<CodonTag>
    decreases n,
{
    if n == 0 {
        None
    } else {
        let prev = spec_tags_upto(t, c, (n - 1) as nat);
        let x = spec_codon_of_rank(n - 1);
        if spec_stands_for(c, x) {
            let tag = t.spec_get_tag(&x);
            Some(
                match prev {
                    None => tag,
                    Some(p) => p.spec_union(&tag),
                },
            )
        } else {
            prev
        }
    }
}

/// The merged translations of the concrete codons of rank below `n` that `c`
/// stands for, in rank order; `None` where there is none.
pub open spec fn spec_residues_upto(t: NCBITransTable, c: Codon<DNA>, n: nat) -> Option<
    Stopped<AA>,
>
    decreases n,
{
    if n == 0 {
        None
    } else {
        let prev = spec_residues_upto(t, c, (n - 1) as nat);
        let x = spec_codon_of_rank(n - 1);
        if spec_stands_for(c, x) {
            let res = t.spec_get(&x);
            Some(
                match prev {
                    None => res,
                    Some(p) => p.spec_merge(&res),
                },
            )
        } else {
            prev
        }
    }
}

/// A codon of redundant nucleotides stands for at least one concrete codon,
/// and any concrete codon it stands for makes the folds below defined.
pub proof fn lemma_some_concrete_codon(t: NCBITransTable, c: Codon<DNA>, k: nat, n: nat)
    requires
        k < n,
        spec_stands_for(c, spec_codon_of_rank(k as int)),
    ensures
        spec_tags_upto(t, c, n) is Some,
        spec_residues_upto(t, c, n) is Some,
    decreases n,
{
    if k + 1 < n {
        lemma_some_concrete_codon(t, c, k, (n - 1) as nat);
    }
}

/// The rank of the lowest concrete base that a redundant nucleotide stands for.
pub open spec fn spec_lowest_base(d: DNA) -> nat {
    if d.mask() & 1 != 0 {
        0
    } else if d.mask() & 2 != 0 {
        1
    } else if d.mask() & 4 != 0 {
        2
    } else {
        3
    }
}

proof fn lemma_lowest_base(d: DNA)
    ensures
        spec_lowest_base(d) < 4,
        d.spec_matches(&DNA4::spec_from_rank(spec_lowest_base(d)).spec_to_dna()),
{
    let m = d.mask();
    crate::dna::lemma_mask_round_trip(0, d);
    assert(m & 1 == 0 && m & 2 == 0 && m & 4 == 0 && 1 <= m <= 15 ==> m & 8 != 0) by (bit_vector);
}

/// Over all 64 concrete codons, both folds are defined.
proof fn lemma_folds_defined(t: NCBITransTable, c: Codon<DNA>)
    ensures
        spec_tags_upto(t, c, 64) is Some,
        spec_residues_upto(t, c, 64) is Some,
{
    lemma_lowest_base(c.0);
    lemma_lowest_base(c.1);
    lemma_lowest_base(c.2);
    let w = spec_lowest_base(c.0) * 16 + spec_lowest_base(c.1) * 4 + spec_lowest_base(c.2);
    assert(spec_codon_of_rank(w as int) == Codon(
        DNA4::spec_from_rank(spec_lowest_base(c.0)),
        DNA4::spec_from_rank(spec_lowest_base(c.1)),
        DNA4::spec_from_rank(spec_lowest_base(c.2)),
    ));
    lemma_some_concrete_codon(t, c, w, 64);
}

fn stands_for(c: &Codon<DNA>, x: &Codon<DNA4>) -> (r: bool)
    ensures
        r == spec_stands_for(*c, *x),
{
    c.0.matches(&x.0.to_dna()) && c.1.matches(&x.1.to_dna()) && c.2.matches(&x.2.to_dna())
}

fn codon_of_rank(k: usize) -> (r: Codon<DNA4>)
    requires
        k < 64,
    ensures
        r == spec_codon_of_rank(k as int),
{
    let (a, b, c) = (DNA4::from_rank(k / 16), DNA4::from_rank((k / 4) % 4), DNA4::from_rank(k % 4));
    match (a, b, c) {
        (Some(a), Some(b), Some(c)) => Codon(a, b, c),
        _ => unreached(),
    }
}

impl NCBITransTable {
    /// The roles of a codon of redundant nucleotides: the union of the roles
    /// of every concrete codon it stands for.
    pub fn tag_redundant(&self, c: &Codon<DNA>) -> (r: CodonTag)
        ensures
            Some(r) == spec_tags_upto(*self, *c, 64),
    {
        let mut acc: Option<CodonTag> = None;
        let mut k: usize = 0;
        while k < 64
            invariant
                k <= 64,
                acc == spec_tags_upto(*self, *c, k as nat),
            decreases 64 - k,
        {
            let x = codon_of_rank(k);
            if stands_for(c, &x) {
                let tag = self.get_tag(&x);
                acc = match acc {
                    None => Some(tag),
                    Some(p) => Some(p.union(&tag)),
                };
            }
            k = k + 1;
        }
        proof {
            lemma_folds_defined(*self, *c);
        }
        match acc {
            Some(tag) => tag,
            None => unreached(),
        }
    }

    /// The translation of a codon of redundant nucleotides: the translations
    /// of every concrete codon it stands for, merged in rank order. The result
    /// is a stop where all are stops, a residue where none can stop, and
    /// otherwise a stop or the union of the residues.
    #[verifier::rlimit(30)]
    pub fn translate_redundant(&self, c: &Codon<DNA>) -> (r: Stopped<AA>)
        ensures
            Some(r) == spec_residues_upto(*self, *c, 64),
    {
        let mut acc: Option<Stopped<AA>> = None;
        let mut k: usize = 0;
        while k < 64
            invariant
                k <= 64,
                acc == spec_residues_upto(*self, *c, k as nat),
            decreases 64 - k,
        {
            let x = codon_of_rank(k);
            if stands_for(c, &x) {
                let res = self.get(&x);
                acc = match acc {
                    None => Some(res),
                    Some(p) => Some(p.merge(&res)),
                };
            }
            k = k + 1;
        }
        proof {
            lemma_folds_defined(*self, *c);
        }
        match acc {
            Some(res) => res,
            None => unreached(),
        }
    }
}

/// A sequence of keys translated one at a time through a table.
pub struct Translate<K, T, V> {
    items: Vec<K>,
    pos: usize,
    table: T,
    out: PhantomData<V>,
}

impl<K, T, V> View for Translate<K, T, V> {
    type V = Seq<K>;

    /// The keys not translated yet.
    closed spec fn view(&self) -> Seq<K> {
        self.items@.subrange(self.pos as int, self.items@.len() as int)
    }
}

impl<K, T, V> Translate<K, T, V> {
    pub closed spec fn wf(&self) -> bool {
        self.pos <= self.items@.len()
    }
}

impl<K, T: TranslationTable<K, V>, V> Translate<K, T, V> {
    /// The table the keys are translated through.
    pub closed spec fn spec_table(&self) -> T {
        self.table
    }

    /// Translates `items` through `table`.
    pub fn new(items: Vec<K>, table: T) -> (r: Translate<K, T, V>)
        ensures
            r.wf(),
            r@ == items@,
            r.spec_table() == table,
    {
        let r = Translate { items, pos: 0, table, out: PhantomData };
        assert(r@ =~= r.items@);
        r
    }

    /// The number of keys left.
    pub fn len(&self) -> (r: usize)
        requires
            self.wf(),
        ensures
            r == self@.len(),
    {
        self.items.len() - self.pos
    }

    /// The translation of the next key.
    pub fn next(&mut self) -> (r: Option<V>)
        requires
            old(self).wf(),
        ensures
            final(self).wf(),
            final(self).spec_table() == old(self).spec_table(),
            old(self)@.len() == 0 ==> r is None && final(self)@ == old(self)@,
            old(self)@.len() > 0 ==> r == Some(old(self).spec_table().spec_get(&old(self)@[0]))
                && final(self)@ == old(self)@.subrange(1, old(self)@.len() as int),
    {
        if self.pos == self.items.len() {
            None
        } else {
            let v = self.table.get(&self.items[self.pos]);
            self.pos = self.pos + 1;
            assert(self@ =~= old(self)@.subrange(1, old(self)@.len() as int));
            Some(v)
        }
    }
}

/// Sequences of keys that can be translated through a table.
pub trait IntoTranslate<K, T: TranslationTable<K, V>, V>: Sized {
    spec fn spec_keys(&self) -> Seq<K>;

    /// Translates the keys through `table`, one at a time.
    fn translate(self, table: T) -> (r: Translate<K, T, V>)
        ensures
            r.wf(),
            r@ == self.spec_keys(),
            r.spec_table() == table,
    ;
}

impl<K, T: TranslationTable<K, V>, V> IntoTranslate<K, T, V> for Vec<K> {
    open spec fn spec_keys(&self) -> Seq<K> {
        self@
    }

    fn translate(self, table: T) -> (r: Translate<K, T, V>) {
        Translate::new(self, table)
    }
}

/// A sequence of codons tagged one at a time through a table.
pub struct CodonTags<K, T, V> {
    items: Vec<K>,
    pos: usize,
    table: T,
    out: PhantomData<V>,
}

impl<K, T, V> View for CodonTags<K, T, V> {
    type V = Seq<K>;

    /// The codons not tagged yet.
    closed spec fn view(&self) -> Seq<K> {
        self.items@.subrange(self.pos as int, self.items@.len() as int)
    }
}

impl<K, T, V> CodonTags<K, T, V> {
    pub closed spec fn wf(&self) -> bool {
        self.pos <= self.items@.len()
    }
}

impl<K, T: CodonTagTable<K, V>, V> CodonTags<K, T, V> {
    /// The table the codons are tagged through.
    pub closed spec fn spec_table(&self) -> T {
        self.table
    }

    /// Tags `items` through `table`.
    pub fn new(items: Vec<K>, table: T) -> (r: CodonTags<K, T, V>)
        ensures
            r.wf(),
            r@ == items@,
            r.spec_table() == table,
    {
        let r = CodonTags { items, pos: 0, table, out: PhantomData };
        assert(r@ =~= r.items@);
        r
    }

    /// The number of codons left.
    pub fn len(&self) -> (r: usize)
        requires
            self.wf(),
        ensures
            r == self@.len(),
    {
        self.items.len() - self.pos
    }

    /// The roles of the next codon.
    pub fn next(&mut self) -> (r: Option<V>)
        requires
            old(self).wf(),
        ensures
            final(self).wf(),
            final(self).spec_table() == old(self).spec_table(),
            old(self)@.len() == 0 ==> r is None && final(self)@ == old(self)@,
            old(self)@.len() > 0 ==> r == Some(old(self).spec_table().spec_get_tag(&old(self)@[0]))
                && final(self)@ == old(self)@.subrange(1, old(self)@.len() as int),
    {
        if self.pos == self.items.len() {
            None
        } else {
            let v = self.table.get_tag(&self.items[self.pos]);
            self.pos = self.pos + 1;
            assert(self@ =~= old(self)@.subrange(1, old(self)@.len() as int));
            Some(v)
        }
    }
}

/// Sequences of codons that can be tagged through a table.
pub trait IntoCodonTags<K, T: CodonTagTable<K, V>, V>: Sized {
    spec fn spec_keys(&self) -> Seq<K>;

    /// Tags the codons through `table`, one at a time.
    fn codon_tags(self, table: T) -> (r: CodonTags<K, T, V>)
        ensures
            r.wf(),
            r@ == self.spec_keys(),
            r.spec_table() == table,
    ;
}

impl<K, T: CodonTagTable<K, V>, V> IntoCodonTags<K, T, V> for Vec<K> {
    open spec fn spec_keys(&self) -> Seq<K> {
        self@
    }

    fn codon_tags(self, table: T) -> (r: CodonTags<K, T, V>) {
        CodonTags::new(self, table)
    }
}

/// Each code is found again from its NCBI number.
pub proof fn lemma_id_round_trip(t: NCBITransTable)
    ensures
        spec_id_to_table(spec_id(t)) == Some(t),
{
}

/// Every table holds only characters that decode.
pub proof fn lemma_tables_well_formed(t: NCBITransTable)
    ensures
        residues_well_formed(spec_codons(t)),
        tags_well_formed(spec_tags(t)),
{
}

} // verus!
