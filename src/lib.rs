//! Typed biological sequence alphabets: nucleotide and amino-acid symbols with
//! their IUPAC ambiguity codes, a set algebra over ambiguous symbols, codons and
//! their translation through the NCBI genetic codes.
pub mod aa;
pub mod alphabet;
pub mod charcase;
pub mod codon;
pub mod complement;
pub mod convert;
pub mod dna;
pub mod dna4;
pub mod errors;
pub mod gapped;
pub mod kmer;
pub mod matcher;
pub mod packed;
pub mod stopped;
pub mod tables;
pub mod tags;
pub mod translate;
pub mod utils;
