use seqrs::aa::AA;
use seqrs::codon::Codon;
use seqrs::complement::IntoReverseComplement;
use seqrs::dna::DNA;
use seqrs::dna4::DNA4;
use seqrs::gapped::Gapped;
use seqrs::gapped::Gapped::{Base, Gap};
use seqrs::kmer::SimpleKmer;
use seqrs::matcher::Match;
use seqrs::packed::{BigEndian, BitPack, Packed};
use seqrs::stopped::Stopped;
use seqrs::stopped::Stopped::{Res, Stop, StopOr};
use seqrs::tags::CodonTag;
use seqrs::translate::{IntoCodonTags, IntoTranslate, NCBITransTable};

fn atg_taa() -> Vec<Codon<DNA4>> {
    vec![
        Codon(DNA4::A, DNA4::T, DNA4::G),
        Codon(DNA4::T, DNA4::A, DNA4::A),
    ]
}

#[test]
fn test_translate_iter() {
    let arr = atg_taa();
    let mut it = arr.clone().translate(NCBITransTable::Standard);
    let mut trans: Vec<Stopped<AA>> = Vec::new();
    while let Some(x) = it.next() {
        trans.push(x);
    }
    assert_eq!(trans, vec![Res(AA::M), Stop]);
    println!("I can still use this {:?}", arr);
}

#[test]
fn test_translate_into_iter() {
    let mut it = atg_taa().translate(NCBITransTable::Standard);
    assert_eq!(it.len(), 2);
    assert_eq!(it.next(), Some(Res(AA::M)));
    assert_eq!(it.next(), Some(Stop));
    assert_eq!(it.next(), None);
}

#[test]
fn test_translate_iter_gapped() {
    let arr = vec![
        Base(Codon(DNA4::A, DNA4::T, DNA4::G)),
        Gap,
        Base(Codon(DNA4::T, DNA4::A, DNA4::A)),
    ];
    let mut it = arr.clone().translate(NCBITransTable::Standard);
    let mut trans: Vec<Gapped<Stopped<AA>>> = Vec::new();
    while let Some(x) = it.next() {
        trans.push(x);
    }
    assert_eq!(trans, vec![Base(Res(AA::M)), Gap, Base(Stop)]);
    println!("I can still use this {:?}", arr);
}

#[test]
fn test_codon_tags_iter() {
    let arr = atg_taa();
    let mut it = arr.clone().codon_tags(NCBITransTable::Standard);
    let mut tags: Vec<CodonTag> = Vec::new();
    while let Some(x) = it.next() {
        tags.push(x);
    }
    assert_eq!(tags, vec![CodonTag::Start, CodonTag::Stop]);
    println!("I can still use this {:?}", arr);
}

#[test]
fn test_gapped_codon_tags_iter() {
    let arr = vec![
        Base(Codon(DNA4::A, DNA4::T, DNA4::G)),
        Gap,
        Base(Codon(DNA4::T, DNA4::A, DNA4::A)),
    ];
    let mut it = arr.clone().codon_tags(NCBITransTable::Standard);
    let mut tags: Vec<Gapped<CodonTag>> = Vec::new();
    while let Some(x) = it.next() {
        tags.push(x);
    }
    assert_eq!(tags, vec![Base(CodonTag::Start), Gap, Base(CodonTag::Stop)]);
    println!("I can still use this {:?}", arr);
}

#[test]
fn reverse_complement_reads_from_both_ends() {
    let mut it = vec![DNA::A, DNA::T, DNA::G, DNA::C].reverse_complement();
    assert_eq!(it.len(), 4);
    assert_eq!(it.next(), Some(DNA::G));
    assert_eq!(it.next_back(), Some(DNA::T));
    assert_eq!(it.next(), Some(DNA::C));
    assert_eq!(it.next(), Some(DNA::A));
    assert!(it.is_empty());
    assert_eq!(it.next(), None);
    assert_eq!(it.next_back(), None);
}

#[test]
fn redundant_codons_combine_their_concrete_codons() {
    let t = NCBITransTable::Standard;
    // TAA and TGA are both stops
    assert_eq!(t.translate_redundant(&Codon(DNA::T, DNA::R, DNA::A)), Stop);
    // AAC and AAT are both asparagine
    assert_eq!(t.translate_redundant(&Codon(DNA::A, DNA::A, DNA::Y)), Res(AA::N));
    // GCN is alanine
    assert_eq!(t.translate_redundant(&Codon(DNA::G, DNA::C, DNA::N)), Res(AA::A));
    // AAY and GAY: asparagine or aspartate
    assert_eq!(t.translate_redundant(&Codon(DNA::R, DNA::A, DNA::Y)), Res(AA::B));
    // TAN: tyrosine or a stop
    assert_eq!(t.translate_redundant(&Codon(DNA::T, DNA::A, DNA::N)), StopOr(AA::Y));
    // a concrete codon translates as the table says
    assert_eq!(t.translate_redundant(&Codon(DNA::A, DNA::T, DNA::G)), Res(AA::M));
    // ATN: isoleucine and methionine
    assert_eq!(t.translate_redundant(&Codon(DNA::A, DNA::T, DNA::N)), Res(AA::X));
    assert_eq!(t.tag_redundant(&Codon(DNA::A, DNA::T, DNA::N)), CodonTag::StartRes);
    assert_eq!(t.tag_redundant(&Codon(DNA::T, DNA::R, DNA::A)), CodonTag::Stop);
    assert_eq!(t.tag_redundant(&Codon(DNA::N, DNA::N, DNA::N)), CodonTag::Any);
    assert_eq!(t.tag_redundant(&Codon(DNA::A, DNA::T, DNA::G)), CodonTag::Start);
}

#[test]
fn merging_outcomes() {
    assert_eq!(Res(AA::D).merge(&Res(AA::N)), Res(AA::B));
    assert_eq!(Res(AA::D).merge(&Stop), StopOr(AA::D));
    assert_eq!(Stop::<AA>.merge(&Stop), Stop);
    assert_eq!(StopOr(AA::I).merge(&Res(AA::L)), StopOr(AA::J));
}

#[test]
fn kmers_of_two_nucleotides() {
    assert_eq!(SimpleKmer::<DNA4, 2>::cardinality(), 16);
    assert_eq!(SimpleKmer::<DNA4, 3>::cardinality(), 64);
    assert_eq!(SimpleKmer::<AA, 0>::cardinality(), 1);
    let k = SimpleKmer::<DNA4, 2>::from_rank(15).unwrap();
    assert_eq!(k.rank(), 15);
    assert!(SimpleKmer::<DNA4, 2>::from_rank(16).is_none());
}

#[test]
fn packed_pairs() {
    let mut p: Packed<DNA, BigEndian> = Packed::from_pair([DNA::A, DNA::N]);
    assert_eq!(Packed::<DNA, BigEndian>::capacity(), 2);
    assert_eq!(p.get(0), DNA::A);
    assert_eq!(p.get(1), DNA::N);
    p.set(1, DNA::Y);
    assert_eq!(p.into_pair(), [DNA::A, DNA::Y]);
    p.set(0, DNA::G);
    assert_eq!(p.into_pair(), [DNA::G, DNA::Y]);
}

#[test]
fn codon_maps() {
    let c = Codon(DNA::A, DNA::T, DNA::G);
    assert_eq!(c.map_each(|b| DNA4::try_from_dna(&b).unwrap()), Codon(DNA4::A, DNA4::T, DNA4::G));
    assert_eq!(c.map(|a, b, x| (x, b, a)), Codon(DNA::G, DNA::T, DNA::A));
    assert_eq!(c.flat_map(|a, _b, _x| Codon(a, a, a)), Codon(DNA::A, DNA::A, DNA::A));
    let r = c.as_ref();
    assert_eq!(*r.0, DNA::A);
}

#[test]
fn stops_match_only_stops() {
    assert!(Stop::<AA>.matches(&Stop));
    assert!(!Stop::<AA>.matches(&Res(AA::A)));
    assert!(Stop::<AA>.matches(&StopOr(AA::W)));
    assert!(Res(AA::X).matches(&Res(AA::W)));
    assert!(Res(AA::D).matches(&StopOr(AA::B)));
    assert!(!Res(AA::D).matches(&Res(AA::E)));
}

#[test]
fn mutable_borrows() {
    let mut g: Gapped<DNA> = Base(DNA::A);
    if let Base(x) = g.as_mut() {
        *x = DNA::T;
    }
    assert_eq!(g, Base(DNA::T));
    let mut s: Stopped<AA> = StopOr(AA::W);
    if let StopOr(x) = s.as_mut() {
        *x = AA::Q;
    }
    assert_eq!(s, StopOr(AA::Q));
    let mut gap: Gapped<DNA> = Gap;
    assert!(gap.as_mut().is_gap());
}
