//! The NCBI genetic codes, as tables over the 64 concrete codons.
//!
//! Each table is listed in codon rank order: `AAA`, `AAC`, `AAG`, `AAT`, `ACA`,
//! and so on to `TTT`, with bases ranked A, C, G, T; each line holds the 16
//! codons of one first base.
//!
//! A translation table holds one ASCII byte per codon: an upper-case letter for
//! a residue, `*` (42) for a stop, and a lower-case letter for a codon that is a
//! stop or that residue depending on its context.
//!
//! A tag table holds one mask per codon, the sum of its roles: 1 for a start,
//! 2 for a residue and 4 for a stop.
use vstd::prelude::*;

verus! {

/// Residues of the code numbered 1.
pub const CODONS_STANDARD: [u8; 64] = [
    75, 78, 75, 78, 84, 84, 84, 84, 82, 83, 82, 83, 73, 73, 77, 73,
    81, 72, 81, 72, 80, 80, 80, 80, 82, 82, 82, 82, 76, 76, 76, 76,
    69, 68, 69, 68, 65, 65, 65, 65, 71, 71, 71, 71, 86, 86, 86, 86,
    42, 89, 42, 89, 83, 83, 83, 83, 42, 67, 87, 67, 76, 70, 76, 70,
];

/// Residues of the code numbered 2.
pub const CODONS_VERTEBRATE_MITO: [u8; 64] = [
    75, 78, 75, 78, 84, 84, 84, 84, 42, 83, 42, 83, 77, 73, 77, 73,
    81, 72, 81, 72, 80, 80, 80, 80, 82, 82, 82, 82, 76, 76, 76, 76,
    69, 68, 69, 68, 65, 65, 65, 65, 71, 71, 71, 71, 86, 86, 86, 86,
    42, 89, 42, 89, 83, 83, 83, 83, 87, 67, 87, 67, 76, 70, 76, 70,
];

/// Residues of the code numbered 3.
pub const CODONS_YEAST_MITO: [u8; 64] = [
    75, 78, 75, 78, 84, 84, 84, 84, 82, 83, 82, 83, 77, 73, 77, 73,
    81, 72, 81, 72, 80, 80, 80, 80, 82, 82, 82, 82, 84, 84, 84, 84,
    69, 68, 69, 68, 65, 65, 65, 65, 71, 71, 71, 71, 86, 86, 86, 86,
    42, 89, 42, 89, 83, 83, 83, 83, 87, 67, 87, 67, 76, 70, 76, 70,
];

/// Residues of the code numbered 4.
pub const CODONS_MOLD_PROTOZOAN_COELENTERATE_MITO: [u8; 64] = [
    75, 78, 75, 78, 84, 84, 84, 84, 82, 83, 82, 83, 73, 73, 77, 73,
    81, 72, 81, 72, 80, 80, 80, 80, 82, 82, 82, 82, 76, 76, 76, 76,
    69, 68, 69, 68, 65, 65, 65, 65, 71, 71, 71, 71, 86, 86, 86, 86,
    42, 89, 42, 89, 83, 83, 83, 83, 87, 67, 87, 67, 76, 70, 76, 70,
];

/// Residues of the code numbered 5.
pub const CODONS_INVERTEBRATE_MITO: [u8; 64] = [
    75, 78, 75, 78, 84, 84, 84, 84, 83, 83, 83, 83, 77, 73, 77, 73,
    81, 72, 81, 72, 80, 80, 80, 80, 82, 82, 82, 82, 76, 76, 76, 76,
    69, 68, 69, 68, 65, 65, 65, 65, 71, 71, 71, 71, 86, 86, 86, 86,
    42, 89, 42, 89, 83, 83, 83, 83, 87, 67, 87, 67, 76, 70, 76, 70,
];

/// Residues of the code numbered 6.
pub const CODONS_CILIATE_DASYCLADACEAN_HEXAMITA: [u8; 64] = [
    75, 78, 75, 78, 84, 84, 84, 84, 82, 83, 82, 83, 73, 73, 77, 73,
    81, 72, 81, 72, 80, 80, 80, 80, 82, 82, 82, 82, 76, 76, 76, 76,
    69, 68, 69, 68, 65, 65, 65, 65, 71, 71, 71, 71, 86, 86, 86, 86,
    81, 89, 81, 89, 83, 83, 83, 83, 42, 67, 87, 67, 76, 70, 76, 70,
];

/// Residues of the code numbered 9.
pub const CODONS_ECHINODERM_FLATWORM_MITO: [u8; 64] = [
    78, 78, 75, 78, 84, 84, 84, 84, 83, 83, 83, 83, 73, 73, 77, 73,
    81, 72, 81, 72, 80, 80, 80, 80, 82, 82, 82, 82, 76, 76, 76, 76,
    69, 68, 69, 68, 65, 65, 65, 65, 71, 71, 71, 71, 86, 86, 86, 86,
    42, 89, 42, 89, 83, 83, 83, 83, 87, 67, 87, 67, 76, 70, 76, 70,
];

/// Residues of the code numbered 10.
pub const CODONS_EUPLOTID: [u8; 64] = [
    75, 78, 75, 78, 84, 84, 84, 84, 82, 83, 82, 83, 73, 73, 77, 73,
    81, 72, 81, 72, 80, 80, 80, 80, 82, 82, 82, 82, 76, 76, 76, 76,
    69, 68, 69, 68, 65, 65, 65, 65, 71, 71, 71, 71, 86, 86, 86, 86,
    42, 89, 42, 89, 83, 83, 83, 83, 67, 67, 87, 67, 76, 70, 76, 70,
];

/// Residues of the code numbered 11.
pub const CODONS_BACTERIAL_ARCHAEAL_PLASTID: [u8; 64] = [
    75, 78, 75, 78, 84, 84, 84, 84, 82, 83, 82, 83, 73, 73, 77, 73,
    81, 72, 81, 72, 80, 80, 80, 80, 82, 82, 82, 82, 76, 76, 76, 76,
    69, 68, 69, 68, 65, 65, 65, 65, 71, 71, 71, 71, 86, 86, 86, 86,
    42, 89, 42, 89, 83, 83, 83, 83, 42, 67, 87, 67, 76, 70, 76, 70,
];

/// Residues of the code numbered 12.
pub const CODONS_ALT_YEAST: [u8; 64] = [
    75, 78, 75, 78, 84, 84, 84, 84, 82, 83, 82, 83, 73, 73, 77, 73,
    81, 72, 81, 72, 80, 80, 80, 80, 82, 82, 82, 82, 76, 76, 83, 76,
    69, 68, 69, 68, 65, 65, 65, 65, 71, 71, 71, 71, 86, 86, 86, 86,
    42, 89, 42, 89, 83, 83, 83, 83, 42, 67, 87, 67, 76, 70, 76, 70,
];

/// Residues of the code numbered 13.
pub const CODONS_ASCIDIAN_MITO: [u8; 64] = [
    75, 78, 75, 78, 84, 84, 84, 84, 71, 83, 71, 83, 77, 73, 77, 73,
    81, 72, 81, 72, 80, 80, 80, 80, 82, 82, 82, 82, 76, 76, 76, 76,
    69, 68, 69, 68, 65, 65, 65, 65, 71, 71, 71, 71, 86, 86, 86, 86,
    42, 89, 42, 89, 83, 83, 83, 83, 87, 67, 87, 67, 76, 70, 76, 70,
];

/// Residues of the code numbered 14.
pub const CODONS_ALT_FLATWORM_MITO: [u8; 64] = [
    78, 78, 75, 78, 84, 84, 84, 84, 83, 83, 83, 83, 73, 73, 77, 73,
    81, 72, 81, 72, 80, 80, 80, 80, 82, 82, 82, 82, 76, 76, 76, 76,
    69, 68, 69, 68, 65, 65, 65, 65, 71, 71, 71, 71, 86, 86, 86, 86,
    89, 89, 42, 89, 83, 83, 83, 83, 87, 67, 87, 67, 76, 70, 76, 70,
];

/// Residues of the code numbered 15.
pub const CODONS_BLEPHARISMA_MACRONUCLEAR: [u8; 64] = [
    75, 78, 75, 78, 84, 84, 84, 84, 82, 83, 82, 83, 73, 73, 77, 73,
    81, 72, 81, 72, 80, 80, 80, 80, 82, 82, 82, 82, 76, 76, 76, 76,
    69, 68, 69, 68, 65, 65, 65, 65, 71, 71, 71, 71, 86, 86, 86, 86,
    42, 89, 81, 89, 83, 83, 83, 83, 42, 67, 87, 67, 76, 70, 76, 70,
];

/// Residues of the code numbered 16.
pub const CODONS_CHLOROPHYCEAN_MITO: [u8; 64] = [
    75, 78, 75, 78, 84, 84, 84, 84, 82, 83, 82, 83, 73, 73, 77, 73,
    81, 72, 81, 72, 80, 80, 80, 80, 82, 82, 82, 82, 76, 76, 76, 76,
    69, 68, 69, 68, 65, 65, 65, 65, 71, 71, 71, 71, 86, 86, 86, 86,
    42, 89, 76, 89, 83, 83, 83, 83, 42, 67, 87, 67, 76, 70, 76, 70,
];

/// Residues of the code numbered 21.
pub const CODONS_TREMATODE_MITO: [u8; 64] = [
    78, 78, 75, 78, 84, 84, 84, 84, 83, 83, 83, 83, 77, 73, 77, 73,
    81, 72, 81, 72, 80, 80, 80, 80, 82, 82, 82, 82, 76, 76, 76, 76,
    69, 68, 69, 68, 65, 65, 65, 65, 71, 71, 71, 71, 86, 86, 86, 86,
    42, 89, 42, 89, 83, 83, 83, 83, 87, 67, 87, 67, 76, 70, 76, 70,
];

/// Residues of the code numbered 22.
pub const CODONS_SCENEDESMUS_MITO: [u8; 64] = [
    75, 78, 75, 78, 84, 84, 84, 84, 82, 83, 82, 83, 73, 73, 77, 73,
    81, 72, 81, 72, 80, 80, 80, 80, 82, 82, 82, 82, 76, 76, 76, 76,
    69, 68, 69, 68, 65, 65, 65, 65, 71, 71, 71, 71, 86, 86, 86, 86,
    42, 89, 76, 89, 42, 83, 83, 83, 42, 67, 87, 67, 76, 70, 76, 70,
];

/// Residues of the code numbered 23.
pub const CODONS_THRAUSTOCHYTRIUM_MITO: [u8; 64] = [
    75, 78, 75, 78, 84, 84, 84, 84, 82, 83, 82, 83, 73, 73, 77, 73,
    81, 72, 81, 72, 80, 80, 80, 80, 82, 82, 82, 82, 76, 76, 76, 76,
    69, 68, 69, 68, 65, 65, 65, 65, 71, 71, 71, 71, 86, 86, 86, 86,
    42, 89, 42, 89, 83, 83, 83, 83, 42, 67, 87, 67, 42, 70, 76, 70,
];

/// Residues of the code numbered 24.
pub const CODONS_PTEROBRANCHIA_MITO: [u8; 64] = [
    75, 78, 75, 78, 84, 84, 84, 84, 83, 83, 75, 83, 73, 73, 77, 73,
    81, 72, 81, 72, 80, 80, 80, 80, 82, 82, 82, 82, 76, 76, 76, 76,
    69, 68, 69, 68, 65, 65, 65, 65, 71, 71, 71, 71, 86, 86, 86, 86,
    42, 89, 42, 89, 83, 83, 83, 83, 87, 67, 87, 67, 76, 70, 76, 70,
];

/// Residues of the code numbered 25.
pub const CODONS_S_R1_GRACILIBACTERIA: [u8; 64] = [
    75, 78, 75, 78, 84, 84, 84, 84, 82, 83, 82, 83, 73, 73, 77, 73,
    81, 72, 81, 72, 80, 80, 80, 80, 82, 82, 82, 82, 76, 76, 76, 76,
    69, 68, 69, 68, 65, 65, 65, 65, 71, 71, 71, 71, 86, 86, 86, 86,
    42, 89, 42, 89, 83, 83, 83, 83, 71, 67, 87, 67, 76, 70, 76, 70,
];

/// Residues of the code numbered 26.
pub const CODONS_PACHYSOLEN: [u8; 64] = [
    75, 78, 75, 78, 84, 84, 84, 84, 82, 83, 82, 83, 73, 73, 77, 73,
    81, 72, 81, 72, 80, 80, 80, 80, 82, 82, 82, 82, 76, 76, 65, 76,
    69, 68, 69, 68, 65, 65, 65, 65, 71, 71, 71, 71, 86, 86, 86, 86,
    42, 89, 42, 89, 83, 83, 83, 83, 42, 67, 87, 67, 76, 70, 76, 70,
];

/// Residues of the code numbered 27.
pub const CODONS_KARYORELICT: [u8; 64] = [
    75, 78, 75, 78, 84, 84, 84, 84, 82, 83, 82, 83, 73, 73, 77, 73,
    81, 72, 81, 72, 80, 80, 80, 80, 82, 82, 82, 82, 76, 76, 76, 76,
    69, 68, 69, 68, 65, 65, 65, 65, 71, 71, 71, 71, 86, 86, 86, 86,
    81, 89, 81, 89, 83, 83, 83, 83, 119, 67, 87, 67, 76, 70, 76, 70,
];

/// Residues of the code numbered 28.
pub const CODONS_CONDYLOSTOMA: [u8; 64] = [
    75, 78, 75, 78, 84, 84, 84, 84, 82, 83, 82, 83, 73, 73, 77, 73,
    81, 72, 81, 72, 80, 80, 80, 80, 82, 82, 82, 82, 76, 76, 76, 76,
    69, 68, 69, 68, 65, 65, 65, 65, 71, 71, 71, 71, 86, 86, 86, 86,
    113, 89, 113, 89, 83, 83, 83, 83, 119, 67, 87, 67, 76, 70, 76, 70,
];

/// Residues of the code numbered 29.
pub const CODONS_MESODINIUM: [u8; 64] = [
    75, 78, 75, 78, 84, 84, 84, 84, 82, 83, 82, 83, 73, 73, 77, 73,
    81, 72, 81, 72, 80, 80, 80, 80, 82, 82, 82, 82, 76, 76, 76, 76,
    69, 68, 69, 68, 65, 65, 65, 65, 71, 71, 71, 71, 86, 86, 86, 86,
    89, 89, 89, 89, 83, 83, 83, 83, 42, 67, 87, 67, 76, 70, 76, 70,
];

/// Residues of the code numbered 30.
pub const CODONS_PERITRICH: [u8; 64] = [
    75, 78, 75, 78, 84, 84, 84, 84, 82, 83, 82, 83, 73, 73, 77, 73,
    81, 72, 81, 72, 80, 80, 80, 80, 82, 82, 82, 82, 76, 76, 76, 76,
    69, 68, 69, 68, 65, 65, 65, 65, 71, 71, 71, 71, 86, 86, 86, 86,
    69, 89, 69, 89, 83, 83, 83, 83, 42, 67, 87, 67, 76, 70, 76, 70,
];

/// Residues of the code numbered 31.
pub const CODONS_BLASTOCRITHIDIA: [u8; 64] = [
    75, 78, 75, 78, 84, 84, 84, 84, 82, 83, 82, 83, 73, 73, 77, 73,
    81, 72, 81, 72, 80, 80, 80, 80, 82, 82, 82, 82, 76, 76, 76, 76,
    69, 68, 69, 68, 65, 65, 65, 65, 71, 71, 71, 71, 86, 86, 86, 86,
    101, 89, 101, 89, 83, 83, 83, 83, 87, 67, 87, 67, 76, 70, 76, 70,
];

/// Residues of the code numbered 32.
pub const CODONS_BALANOPHORACEAE_PLASTID: [u8; 64] = [
    75, 78, 75, 78, 84, 84, 84, 84, 82, 83, 82, 83, 73, 73, 77, 73,
    81, 72, 81, 72, 80, 80, 80, 80, 82, 82, 82, 82, 76, 76, 76, 76,
    69, 68, 69, 68, 65, 65, 65, 65, 71, 71, 71, 71, 86, 86, 86, 86,
    42, 89, 87, 89, 83, 83, 83, 83, 42, 67, 87, 67, 76, 70, 76, 70,
];

/// Residues of the code numbered 33.
pub const CODONS_CEPHALODISCIDAE_MITO: [u8; 64] = [
    75, 78, 75, 78, 84, 84, 84, 84, 83, 83, 75, 83, 73, 73, 77, 73,
    81, 72, 81, 72, 80, 80, 80, 80, 82, 82, 82, 82, 76, 76, 76, 76,
    69, 68, 69, 68, 65, 65, 65, 65, 71, 71, 71, 71, 86, 86, 86, 86,
    89, 89, 42, 89, 83, 83, 83, 83, 87, 67, 87, 67, 76, 70, 76, 70,
];

/// Roles of the codons of the code numbered 1.
pub const TAGS_STANDARD: [u8; 64] = [
    2, 2, 2, 2, 2, 2, 2, 2, 2, 2, 2, 2, 2, 2, 1, 2,
    2, 2, 2, 2, 2, 2, 2, 2, 2, 2, 2, 2, 2, 2, 1, 2,
    2, 2, 2, 2, 2, 2, 2, 2, 2, 2, 2, 2, 2, 2, 2, 2,
    4, 2, 4, 2, 2, 2, 2, 2, 4, 2, 2, 2, 2, 2, 1, 2,
];

/// Roles of the codons of the code numbered 2.
pub const TAGS_VERTEBRATE_MITO: [u8; 64] = [
    2, 2, 2, 2, 2, 2, 2, 2, 4, 2, 4, 2, 1, 1, 1, 1,
    2, 2, 2, 2, 2, 2, 2, 2, 2, 2, 2, 2, 2, 2, 2, 2,
    2, 2, 2, 2, 2, 2, 2, 2, 2, 2, 2, 2, 2, 2, 1, 2,
    4, 2, 4, 2, 2, 2, 2, 2, 2, 2, 2, 2, 2, 2, 2, 2,
];

/// Roles of the codons of the code numbered 3.
pub const TAGS_YEAST_MITO: [u8; 64] = [
    2, 2, 2, 2, 2, 2, 2, 2, 2, 2, 2, 2, 1, 2, 1, 2,
    2, 2, 2, 2, 2, 2, 2, 2, 2, 2, 2, 2, 2, 2, 2, 2,
    2, 2, 2, 2, 2, 2, 2, 2, 2, 2, 2, 2, 2, 2, 1, 2,
    4, 2, 4, 2, 2, 2, 2, 2, 2, 2, 2, 2, 2, 2, 2, 2,
];

/// Roles of the codons of the code numbered 4.
pub const TAGS_MOLD_PROTOZOAN_COELENTERATE_MITO: [u8; 64] = [
    2, 2, 2, 2, 2, 2, 2, 2, 2, 2, 2, 2, 1, 1, 1, 1,
    2, 2, 2, 2, 2, 2, 2, 2, 2, 2, 2, 2, 2, 2, 1, 2,
    2, 2, 2, 2, 2, 2, 2, 2, 2, 2, 2, 2, 2, 2, 1, 2,
    4, 2, 4, 2, 2, 2, 2, 2, 2, 2, 2, 2, 1, 2, 1, 2,
];

/// Roles of the codons of the code numbered 5.
pub const TAGS_INVERTEBRATE_MITO: [u8; 64] = [
    2, 2, 2, 2, 2, 2, 2, 2, 2, 2, 2, 2, 1, 1, 1, 1,
    2, 2, 2, 2, 2, 2, 2, 2, 2, 2, 2, 2, 2, 2, 2, 2,
    2, 2, 2, 2, 2, 2, 2, 2, 2, 2, 2, 2, 2, 2, 1, 2,
    4, 2, 4, 2, 2, 2, 2, 2, 2, 2, 2, 2, 2, 2, 1, 2,
];

/// Roles of the codons of the code numbered 6.
pub const TAGS_CILIATE_DASYCLADACEAN_HEXAMITA: [u8; 64] = [
    2, 2, 2, 2, 2, 2, 2, 2, 2, 2, 2, 2, 2, 2, 1, 2,
    2, 2, 2, 2, 2, 2, 2, 2, 2, 2, 2, 2, 2, 2, 2, 2,
    2, 2, 2, 2, 2, 2, 2, 2, 2, 2, 2, 2, 2, 2, 2, 2,
    2, 2, 2, 2, 2, 2, 2, 2, 4, 2, 2, 2, 2, 2, 2, 2,
];

/// Roles of the codons of the code numbered 9.
pub const TAGS_ECHINODERM_FLATWORM_MITO: [u8; 64] = [
    2, 2, 2, 2, 2, 2, 2, 2, 2, 2, 2, 2, 2, 2, 1, 2,
    2, 2, 2, 2, 2, 2, 2, 2, 2, 2, 2, 2, 2, 2, 2, 2,
    2, 2, 2, 2, 2, 2, 2, 2, 2, 2, 2, 2, 2, 2, 1, 2,
    4, 2, 4, 2, 2, 2, 2, 2, 2, 2, 2, 2, 2, 2, 2, 2,
];

/// Roles of the codons of the code numbered 10.
pub const TAGS_EUPLOTID: [u8; 64] = [
    2, 2, 2, 2, 2, 2, 2, 2, 2, 2, 2, 2, 2, 2, 1, 2,
    2, 2, 2, 2, 2, 2, 2, 2, 2, 2, 2, 2, 2, 2, 2, 2,
    2, 2, 2, 2, 2, 2, 2, 2, 2, 2, 2, 2, 2, 2, 2, 2,
    4, 2, 4, 2, 2, 2, 2, 2, 2, 2, 2, 2, 2, 2, 2, 2,
];

/// Roles of the codons of the code numbered 11.
pub const TAGS_BACTERIAL_ARCHAEAL_PLASTID: [u8; 64] = [
    2, 2, 2, 2, 2, 2, 2, 2, 2, 2, 2, 2, 1, 1, 1, 1,
    2, 2, 2, 2, 2, 2, 2, 2, 2, 2, 2, 2, 2, 2, 1, 2,
    2, 2, 2, 2, 2, 2, 2, 2, 2, 2, 2, 2, 2, 2, 1, 2,
    4, 2, 4, 2, 2, 2, 2, 2, 4, 2, 2, 2, 2, 2, 1, 2,
];

/// Roles of the codons of the code numbered 12.
pub const TAGS_ALT_YEAST: [u8; 64] = [
    2, 2, 2, 2, 2, 2, 2, 2, 2, 2, 2, 2, 2, 2, 1, 2,
    2, 2, 2, 2, 2, 2, 2, 2, 2, 2, 2, 2, 2, 2, 1, 2,
    2, 2, 2, 2, 2, 2, 2, 2, 2, 2, 2, 2, 2, 2, 2, 2,
    4, 2, 4, 2, 2, 2, 2, 2, 4, 2, 2, 2, 2, 2, 2, 2,
];

/// Roles of the codons of the code numbered 13.
pub const TAGS_ASCIDIAN_MITO: [u8; 64] = [
    2, 2, 2, 2, 2, 2, 2, 2, 2, 2, 2, 2, 1, 2, 1, 2,
    2, 2, 2, 2, 2, 2, 2, 2, 2, 2, 2, 2, 2, 2, 2, 2,
    2, 2, 2, 2, 2, 2, 2, 2, 2, 2, 2, 2, 2, 2, 1, 2,
    4, 2, 4, 2, 2, 2, 2, 2, 2, 2, 2, 2, 2, 2, 1, 2,
];

/// Roles of the codons of the code numbered 14.
pub const TAGS_ALT_FLATWORM_MITO: [u8; 64] = [
    2, 2, 2, 2, 2, 2, 2, 2, 2, 2, 2, 2, 2, 2, 1, 2,
    2, 2, 2, 2, 2, 2, 2, 2, 2, 2, 2, 2, 2, 2, 2, 2,
    2, 2, 2, 2, 2, 2, 2, 2, 2, 2, 2, 2, 2, 2, 2, 2,
    2, 2, 4, 2, 2, 2, 2, 2, 2, 2, 2, 2, 2, 2, 2, 2,
];

/// Roles of the codons of the code numbered 15.
pub const TAGS_BLEPHARISMA_MACRONUCLEAR: [u8; 64] = [
    2, 2, 2, 2, 2, 2, 2, 2, 2, 2, 2, 2, 2, 2, 1, 2,
    2, 2, 2, 2, 2, 2, 2, 2, 2, 2, 2, 2, 2, 2, 2, 2,
    2, 2, 2, 2, 2, 2, 2, 2, 2, 2, 2, 2, 2, 2, 2, 2,
    4, 2, 2, 2, 2, 2, 2, 2, 4, 2, 2, 2, 2, 2, 2, 2,
];

/// Roles of the codons of the code numbered 16.
pub const TAGS_CHLOROPHYCEAN_MITO: [u8; 64] = [
    2, 2, 2, 2, 2, 2, 2, 2, 2, 2, 2, 2, 2, 2, 1, 2,
    2, 2, 2, 2, 2, 2, 2, 2, 2, 2, 2, 2, 2, 2, 2, 2,
    2, 2, 2, 2, 2, 2, 2, 2, 2, 2, 2, 2, 2, 2, 2, 2,
    4, 2, 2, 2, 2, 2, 2, 2, 4, 2, 2, 2, 2, 2, 2, 2,
];

/// Roles of the codons of the code numbered 21.
pub const TAGS_TREMATODE_MITO: [u8; 64] = [
    2, 2, 2, 2, 2, 2, 2, 2, 2, 2, 2, 2, 2, 2, 1, 2,
    2, 2, 2, 2, 2, 2, 2, 2, 2, 2, 2, 2, 2, 2, 2, 2,
    2, 2, 2, 2, 2, 2, 2, 2, 2, 2, 2, 2, 2, 2, 1, 2,
    4, 2, 4, 2, 2, 2, 2, 2, 2, 2, 2, 2, 2, 2, 2, 2,
];

/// Roles of the codons of the code numbered 22.
pub const TAGS_SCENEDESMUS_MITO: [u8; 64] = [
    2, 2, 2, 2, 2, 2, 2, 2, 2, 2, 2, 2, 2, 2, 1, 2,
    2, 2, 2, 2, 2, 2, 2, 2, 2, 2, 2, 2, 2, 2, 2, 2,
    2, 2, 2, 2, 2, 2, 2, 2, 2, 2, 2, 2, 2, 2, 2, 2,
    4, 2, 2, 2, 4, 2, 2, 2, 4, 2, 2, 2, 2, 2, 2, 2,
];

/// Roles of the codons of the code numbered 23.
pub const TAGS_THRAUSTOCHYTRIUM_MITO: [u8; 64] = [
    2, 2, 2, 2, 2, 2, 2, 2, 2, 2, 2, 2, 2, 2, 1, 1,
    2, 2, 2, 2, 2, 2, 2, 2, 2, 2, 2, 2, 2, 2, 2, 2,
    2, 2, 2, 2, 2, 2, 2, 2, 2, 2, 2, 2, 2, 2, 1, 2,
    4, 2, 4, 2, 2, 2, 2, 2, 4, 2, 2, 2, 4, 2, 2, 2,
];

/// Roles of the codons of the code numbered 24.
pub const TAGS_PTEROBRANCHIA_MITO: [u8; 64] = [
    2, 2, 2, 2, 2, 2, 2, 2, 2, 2, 2, 2, 2, 2, 1, 2,
    2, 2, 2, 2, 2, 2, 2, 2, 2, 2, 2, 2, 2, 2, 1, 2,
    2, 2, 2, 2, 2, 2, 2, 2, 2, 2, 2, 2, 2, 2, 1, 2,
    4, 2, 4, 2, 2, 2, 2, 2, 2, 2, 2, 2, 2, 2, 1, 2,
];

/// Roles of the codons of the code numbered 25.
pub const TAGS_S_R1_GRACILIBACTERIA: [u8; 64] = [
    2, 2, 2, 2, 2, 2, 2, 2, 2, 2, 2, 2, 2, 2, 1, 2,
    2, 2, 2, 2, 2, 2, 2, 2, 2, 2, 2, 2, 2, 2, 2, 2,
    2, 2, 2, 2, 2, 2, 2, 2, 2, 2, 2, 2, 2, 2, 1, 2,
    4, 2, 4, 2, 2, 2, 2, 2, 2, 2, 2, 2, 2, 2, 1, 2,
];

/// Roles of the codons of the code numbered 26.
pub const TAGS_PACHYSOLEN: [u8; 64] = [
    2, 2, 2, 2, 2, 2, 2, 2, 2, 2, 2, 2, 2, 2, 1, 2,
    2, 2, 2, 2, 2, 2, 2, 2, 2, 2, 2, 2, 2, 2, 1, 2,
    2, 2, 2, 2, 2, 2, 2, 2, 2, 2, 2, 2, 2, 2, 2, 2,
    4, 2, 4, 2, 2, 2, 2, 2, 4, 2, 2, 2, 2, 2, 2, 2,
];

/// Roles of the codons of the code numbered 27.
pub const TAGS_KARYORELICT: [u8; 64] = [
    2, 2, 2, 2, 2, 2, 2, 2, 2, 2, 2, 2, 2, 2, 1, 2,
    2, 2, 2, 2, 2, 2, 2, 2, 2, 2, 2, 2, 2, 2, 2, 2,
    2, 2, 2, 2, 2, 2, 2, 2, 2, 2, 2, 2, 2, 2, 2, 2,
    2, 2, 2, 2, 2, 2, 2, 2, 6, 2, 2, 2, 2, 2, 2, 2,
];

/// Roles of the codons of the code numbered 28.
pub const TAGS_CONDYLOSTOMA: [u8; 64] = [
    2, 2, 2, 2, 2, 2, 2, 2, 2, 2, 2, 2, 2, 2, 1, 2,
    2, 2, 2, 2, 2, 2, 2, 2, 2, 2, 2, 2, 2, 2, 2, 2,
    2, 2, 2, 2, 2, 2, 2, 2, 2, 2, 2, 2, 2, 2, 2, 2,
    6, 2, 6, 2, 2, 2, 2, 2, 6, 2, 2, 2, 2, 2, 2, 2,
];

/// Roles of the codons of the code numbered 29.
pub const TAGS_MESODINIUM: [u8; 64] = [
    2, 2, 2, 2, 2, 2, 2, 2, 2, 2, 2, 2, 2, 2, 1, 2,
    2, 2, 2, 2, 2, 2, 2, 2, 2, 2, 2, 2, 2, 2, 2, 2,
    2, 2, 2, 2, 2, 2, 2, 2, 2, 2, 2, 2, 2, 2, 2, 2,
    2, 2, 2, 2, 2, 2, 2, 2, 4, 2, 2, 2, 2, 2, 2, 2,
];

/// Roles of the codons of the code numbered 30.
pub const TAGS_PERITRICH: [u8; 64] = [
    2, 2, 2, 2, 2, 2, 2, 2, 2, 2, 2, 2, 2, 2, 1, 2,
    2, 2, 2, 2, 2, 2, 2, 2, 2, 2, 2, 2, 2, 2, 2, 2,
    2, 2, 2, 2, 2, 2, 2, 2, 2, 2, 2, 2, 2, 2, 2, 2,
    2, 2, 2, 2, 2, 2, 2, 2, 4, 2, 2, 2, 2, 2, 2, 2,
];

/// Roles of the codons of the code numbered 31.
pub const TAGS_BLASTOCRITHIDIA: [u8; 64] = [
    2, 2, 2, 2, 2, 2, 2, 2, 2, 2, 2, 2, 2, 2, 1, 2,
    2, 2, 2, 2, 2, 2, 2, 2, 2, 2, 2, 2, 2, 2, 2, 2,
    2, 2, 2, 2, 2, 2, 2, 2, 2, 2, 2, 2, 2, 2, 2, 2,
    6, 2, 6, 2, 2, 2, 2, 2, 2, 2, 2, 2, 2, 2, 2, 2,
];

/// Roles of the codons of the code numbered 32.
pub const TAGS_BALANOPHORACEAE_PLASTID: [u8; 64] = [
    2, 2, 2, 2, 2, 2, 2, 2, 2, 2, 2, 2, 1, 1, 1, 1,
    2, 2, 2, 2, 2, 2, 2, 2, 2, 2, 2, 2, 2, 2, 1, 2,
    2, 2, 2, 2, 2, 2, 2, 2, 2, 2, 2, 2, 2, 2, 1, 2,
    4, 2, 2, 2, 2, 2, 2, 2, 4, 2, 2, 2, 2, 2, 1, 2,
];

/// Roles of the codons of the code numbered 33.
pub const TAGS_CEPHALODISCIDAE_MITO: [u8; 64] = [
    2, 2, 2, 2, 2, 2, 2, 2, 2, 2, 2, 2, 2, 2, 1, 2,
    2, 2, 2, 2, 2, 2, 2, 2, 2, 2, 2, 2, 2, 2, 1, 2,
    2, 2, 2, 2, 2, 2, 2, 2, 2, 2, 2, 2, 2, 2, 1, 2,
    2, 2, 4, 2, 2, 2, 2, 2, 2, 2, 2, 2, 2, 2, 1, 2,
];

} // verus!
