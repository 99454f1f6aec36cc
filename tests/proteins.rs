use seqrs::aa::AA;
use seqrs::alphabet::Alphabet;
use seqrs::codon::{Codon, IntoCodons};
use seqrs::convert::{FromChar, IntoChar};
use seqrs::dna::DNA;
use seqrs::dna4::DNA4;
use seqrs::errors::SeqErrorKind;
use seqrs::gapped::Gapped;
use seqrs::gapped::Gapped::{Base, Gap};
use seqrs::matcher::{Match, RedundantAlphabet};
use seqrs::stopped::Stopped;
use seqrs::stopped::Stopped::{Res, Stop, StopOr};
use seqrs::tags::CodonTag;
use seqrs::translate::{CodonTagTable, NCBITransTable, TranslationTable};

#[test]
fn aa_test_cardinality() {
    assert_eq!(AA::cardinality() as usize, AA::variants().len());
}

#[test]
fn test_redundant_matches() {
    for aa in AA::variants() {
        assert!(aa.matches(&aa));
        for red_aa in aa.redundant_matches() {
            assert!(aa.matches(&red_aa));
        }
    }
}

#[test]
fn amino_acid_test_from() {
    assert_eq!(AA::from_char('A').unwrap(), AA::A);
    assert_eq!(AA::from_char('C').unwrap(), AA::C);
    assert_eq!(AA::from_char('Z').unwrap(), AA::Z);
    assert_eq!(AA::from_char('G').unwrap(), AA::G);

    assert_eq!(AA::from_byte(b'G').unwrap(), AA::G);
}

#[test]
fn codon_test_codon_len() {
    let mut arr = vec![DNA::A, DNA::T, DNA::G, DNA::C].codons();
    assert_eq!(1, arr.len());
    assert_eq!(false, arr.is_empty());
    let _ = arr.next();
    assert_eq!(true, arr.is_empty());
}

#[test]
fn stopped_test_size() {
    assert_eq!(std::mem::size_of::<Stopped<AA>>(), 2);
}

#[test]
fn stopped_test_from() {
    assert_eq!(Stopped::<AA>::from_char('*').unwrap(), Stopped::Stop);
    assert_eq!(Stopped::<AA>::from_char('A').unwrap(), Stopped::Res(AA::A));
    assert_eq!(Stopped::<AA>::from_char(*&'*').unwrap(), Stopped::Stop);
    assert_eq!(Stopped::<AA>::from_char(*&'A').unwrap(), Stopped::Res(AA::A));
    assert_eq!(Stopped::<AA>::from_byte(b'*').unwrap(), Stopped::Stop);
    assert_eq!(Stopped::<AA>::from_byte(b'A').unwrap(), Stopped::Res(AA::A));
    assert_eq!(Stopped::<AA>::from_byte(*&b'*').unwrap(), Stopped::Stop);
    assert_eq!(Stopped::<AA>::from_byte(*&b'A').unwrap(), Stopped::Res(AA::A));

    assert_eq!(Stopped::Res(AA::A).into_byte(), b'A');
    assert_eq!(Stopped::Stop::<AA>.into_byte(), b'*');
    assert_eq!((&Stopped::Res(AA::A)).into_byte(), b'A');
    assert_eq!((&Stopped::Stop::<AA>).into_byte(), b'*');

    assert_eq!(Stopped::Res(AA::A).into_char(), 'A');
    assert_eq!(Stopped::Stop::<AA>.into_char(), '*');
    assert_eq!((&Stopped::Res(AA::A)).into_char(), 'A');
    assert_eq!((&Stopped::Stop::<AA>).into_char(), '*');
}

#[test]
fn codon_test_codon_from_str() {
    let chars: Vec<char> = "ATG".chars().collect();
    let c = Codon::<DNA>::try_from_iter(&chars).unwrap();
    assert_eq!(c, Codon(DNA::A, DNA::T, DNA::G));
}

#[test]
fn codon_test_codon_iter() {
    let mut arr = vec![DNA::A, DNA::T, DNA::G, DNA::C].codons();
    assert_eq!(Some(Codon(DNA::A, DNA::T, DNA::G)), arr.next());
    assert_eq!(None, arr.next());
}

#[test]
fn codon_test_codon_rev_iter() {
    let mut arr = vec![DNA::A, DNA::T, DNA::G, DNA::C].codons();
    assert_eq!(Some(Codon(DNA::A, DNA::T, DNA::G)), arr.next_back());
    assert_eq!(None, arr.next_back());

    let mut arr = vec![DNA::A, DNA::T, DNA::G, DNA::C, DNA::A, DNA::A, DNA::G, DNA::A].codons();
    assert_eq!(Some(Codon(DNA::C, DNA::A, DNA::A)), arr.next_back());
    assert_eq!(Some(Codon(DNA::A, DNA::T, DNA::G)), arr.next_back());
    assert_eq!(None, arr.next_back());
}

#[test]
fn codon_test_eq() {
    assert_eq!(Codon::new(DNA::A, DNA::T, DNA::G), Codon(DNA::A, DNA::T, DNA::G));
}

#[test]
fn codon_test_access() {
    let met = Codon(DNA::A, DNA::T, DNA::G);
    assert_eq!(met.0, DNA::A);
    assert_eq!(met.first(), &DNA::A);
    assert_eq!(met.second(), &DNA::T);
    assert_eq!(met.third(), &DNA::G);
}

#[test]
fn codon_test_translate() {
    let met = Codon(DNA4::A, DNA4::T, DNA4::G);
    assert_eq!(met.translate(&NCBITransTable::Standard), Res(AA::M));
}

#[test]
fn test_translate_arr() {
    let arr = vec![Codon(DNA4::A, DNA4::T, DNA4::G), Codon(DNA4::C, DNA4::T, DNA4::C), Codon(DNA4::T, DNA4::A, DNA4::G)];
    let mapped: Vec<Stopped<AA>> = arr
        .iter()
        .map(|c| c.translate(&NCBITransTable::Standard))
        .collect();
    assert_eq!(mapped, vec![Res(AA::M), Res(AA::L), Stop]);
}

#[test]
fn test_trans_table_ownership() {
    assert_eq!(NCBITransTable::Standard.get(&Codon(DNA4::A, DNA4::T, DNA4::G)), Res(AA::M));
    assert_eq!(
        NCBITransTable::Standard.get(&Base(Codon(DNA4::A, DNA4::T, DNA4::G))),
        Base(Res(AA::M))
    );
    assert_eq!(NCBITransTable::Standard.get(&Gap), Gap::<Stopped<AA>>);
}

#[test]
fn test_codon_tag_table_ownership() {
    assert_eq!(NCBITransTable::Standard.get_tag(&Codon(DNA4::A, DNA4::T, DNA4::G)), CodonTag::Start);
    assert_eq!(
        NCBITransTable::Standard.get_tag(&Base(Codon(DNA4::A, DNA4::T, DNA4::G))),
        Base(CodonTag::Start)
    );
    assert_eq!(NCBITransTable::Standard.get_tag(&Gap), Gap::<CodonTag>);
}

#[test]
fn standard_code_starts_with_methionine() {
    let atg = Codon(DNA4::A, DNA4::T, DNA4::G);
    assert_eq!(NCBITransTable::Standard.get(&atg), Res(AA::M));
    assert_eq!(atg.tag(&NCBITransTable::Standard), CodonTag::Start);
}

#[test]
fn standard_code_stops() {
    for codon in [Codon(DNA4::T, DNA4::A, DNA4::A), Codon(DNA4::T, DNA4::A, DNA4::G), Codon(DNA4::T, DNA4::G, DNA4::A)] {
        assert_eq!(NCBITransTable::Standard.get(&codon), Stop);
        assert_eq!(NCBITransTable::Standard.get_tag(&codon), CodonTag::Stop);
    }
}

#[test]
fn codes_differ_on_aga() {
    let aga = Codon(DNA4::A, DNA4::G, DNA4::A);
    assert_eq!(NCBITransTable::VertebrateMito.get(&aga), Stop);
    assert_eq!(NCBITransTable::Standard.get(&aga), Res(AA::R));
}

#[test]
fn context_dependent_stops() {
    assert_eq!(NCBITransTable::Karyorelict.get(&Codon(DNA4::T, DNA4::G, DNA4::A)), StopOr(AA::W));
    assert_eq!(NCBITransTable::Karyorelict.get_tag(&Codon(DNA4::T, DNA4::G, DNA4::A)), CodonTag::StopRes);
    assert_eq!(NCBITransTable::Condylostoma.get(&Codon(DNA4::T, DNA4::A, DNA4::A)), StopOr(AA::Q));
    assert_eq!(NCBITransTable::Blastocrithidia.get(&Codon(DNA4::T, DNA4::A, DNA4::G)), StopOr(AA::E));
    assert_eq!(NCBITransTable::BalanophoraceaePlastid.get(&Codon(DNA4::T, DNA4::A, DNA4::G)), Res(AA::W));
    assert_eq!(NCBITransTable::BalanophoraceaePlastid.get(&Codon(DNA4::T, DNA4::A, DNA4::A)), Stop);
    assert_eq!(NCBITransTable::Mesodinium.get(&Codon(DNA4::T, DNA4::A, DNA4::A)), Res(AA::Y));
    assert_eq!(NCBITransTable::AltYeast.get(&Codon(DNA4::C, DNA4::T, DNA4::G)), Res(AA::S));
    assert_eq!(NCBITransTable::VertebrateMito.get_tag(&Codon(DNA4::A, DNA4::T, DNA4::T)), CodonTag::Start);
}

#[test]
fn table_numbers() {
    assert_eq!(NCBITransTable::id_to_table(1), Some(NCBITransTable::Standard));
    assert_eq!(NCBITransTable::id_to_table(2), Some(NCBITransTable::VertebrateMito));
    assert_eq!(NCBITransTable::id_to_table(11), Some(NCBITransTable::BacterialArchaealPlastid));
    assert_eq!(NCBITransTable::id_to_table(33), Some(NCBITransTable::CephalodiscidaeMito));
    assert_eq!(NCBITransTable::id_to_table(7), None);
    assert_eq!(NCBITransTable::id_to_table(0), None);
    assert_eq!(NCBITransTable::id_to_table(34), None);
    assert_eq!(NCBITransTable::variants().len(), 27);
    for t in NCBITransTable::variants() {
        assert_eq!(NCBITransTable::id_to_table(t.id()), Some(t));
    }
    assert_eq!(NCBITransTable::default(), NCBITransTable::Standard);
}

#[test]
fn every_codon_translates_in_every_code() {
    let codons = Codon::<DNA4>::variants();
    assert_eq!(codons.len(), 64);
    assert_eq!(Codon::<DNA4>::cardinality(), 64);
    for (i, c) in codons.iter().enumerate() {
        assert_eq!(c.rank(), i);
    }
    for t in NCBITransTable::variants() {
        for c in codons.iter() {
            let _ = t.get(c);
            let _ = t.get_tag(c);
        }
    }
}

#[test]
fn codon_ranks() {
    assert_eq!(Codon(DNA4::A, DNA4::A, DNA4::A).rank(), 0);
    assert_eq!(Codon(DNA4::A, DNA4::T, DNA4::G).rank(), 14);
    assert_eq!(Codon(DNA4::T, DNA4::T, DNA4::T).rank(), 63);
    assert_eq!(Codon::<AA>::cardinality(), 26 * 26 * 26);
    assert_eq!(Codon(AA::B, AA::A, AA::C).rank(), 26 * 26 + 2);
}

#[test]
fn codon_too_short() {
    let chars: Vec<char> = "AT".chars().collect();
    let e = Codon::<DNA>::try_from_iter(&chars).unwrap_err();
    assert_eq!(*e.kind(), SeqErrorKind::CodonFromStrTooShort);
    let chars: Vec<char> = "AQ".chars().collect();
    let e = Codon::<DNA>::try_from_iter(&chars).unwrap_err();
    assert_eq!(*e.kind(), SeqErrorKind::AlphabetReadError { base: 'Q' });
    let chars: Vec<char> = "atgc".chars().collect();
    assert_eq!(
        Codon::<DNA4>::try_from_iter(&chars),
        Ok(Codon(DNA4::A, DNA4::T, DNA4::G))
    );
}

#[test]
fn amino_acid_algebra() {
    assert_eq!(AA::D.union(&AA::N), AA::B);
    assert_eq!(AA::N.union(&AA::D), AA::B);
    assert_eq!(AA::B.union(&AA::D), AA::B);
    assert_eq!(AA::I.union(&AA::L), AA::J);
    assert_eq!(AA::Q.union(&AA::E), AA::Z);
    assert_eq!(AA::A.union(&AA::C), AA::X);
    assert_eq!(AA::B.union(&AA::Z), AA::X);
    assert_eq!(AA::B.intersection(&AA::D), Some(AA::D));
    assert_eq!(AA::X.intersection(&AA::K), Some(AA::K));
    assert_eq!(AA::B.intersection(&AA::Z), None);
    assert_eq!(AA::A.intersection(&AA::C), None);
    assert_eq!(AA::B.difference(&AA::D), Some(AA::N));
    assert_eq!(AA::J.difference(&AA::L), Some(AA::I));
    assert_eq!(AA::D.difference(&AA::B), None);
    assert_eq!(AA::A.difference(&AA::X), None);
    assert_eq!(AA::A.difference(&AA::C), Some(AA::A));
    assert!(AA::X.matches(&AA::W));
    assert!(AA::Z.matches(&AA::Q));
    assert!(!AA::B.matches(&AA::Z));
    assert!(AA::X.is_redundant());
    assert!(!AA::A.is_redundant());
    assert!(!AA::J.is_iupac());
    assert!(AA::A.is_iupac());
    for a in AA::variants() {
        for b in AA::variants() {
            assert_eq!(a.union(&b), b.union(&a));
            assert_eq!(a.intersection(&b), b.intersection(&a));
        }
    }
    assert_eq!(AA::B.redundant_matches(), vec![AA::D, AA::N]);
    assert_eq!(AA::X.redundant_matches().len(), 22);
}

#[test]
fn amino_acid_letters() {
    for a in AA::variants() {
        assert_eq!(AA::from_byte(a.into_byte()), Ok(a));
        assert_eq!(AA::from_char(a.into_char().to_ascii_lowercase()), Ok(a));
        assert_eq!(AA::from_rank(a.rank()), Some(a));
    }
    assert_eq!(AA::from_rank(26), None);
    let e = AA::from_byte(b'*').unwrap_err();
    assert_eq!(*e.kind(), SeqErrorKind::AlphabetReadError { base: '*' });
}

#[test]
fn tag_algebra() {
    assert_eq!(CodonTag::Start.union(&CodonTag::Res), CodonTag::StartRes);
    assert_eq!(CodonTag::StartRes.union(&CodonTag::Res), CodonTag::StartRes);
    assert_eq!(CodonTag::Stop.union(&CodonTag::StartRes), CodonTag::Any);
    assert_eq!(CodonTag::StartStop.intersection(&CodonTag::StartStop), Some(CodonTag::StartStop));
    assert_eq!(CodonTag::Start.intersection(&CodonTag::Stop), None);
    assert_eq!(CodonTag::Any.difference(&CodonTag::Start), Some(CodonTag::StopRes));
    assert_eq!(CodonTag::Start.difference(&CodonTag::StartRes), None);
    assert!(CodonTag::StopRes.matches(&CodonTag::Stop));
    assert!(!CodonTag::StopRes.matches(&CodonTag::Start));
    assert!(CodonTag::Any.is_redundant());
    assert!(!CodonTag::Res.is_redundant());
    assert_eq!(CodonTag::cardinality(), 7);
    assert_eq!(CodonTag::variants().len(), 7);
    assert_eq!(CodonTag::StartRes.redundancy(), vec![CodonTag::Start, CodonTag::Res]);
    assert_eq!(CodonTag::Stop.redundancy(), vec![]);
}

#[test]
fn stopped_wrappers() {
    let r: Stopped<AA> = Res(AA::M);
    assert!(r.is_residue());
    assert!(!r.is_stop());
    let s: Stopped<AA> = StopOr(AA::W);
    assert!(s.is_residue());
    assert!(s.is_stop());
    let t: Stopped<AA> = Stop;
    assert!(!t.is_residue());
    assert!(t.is_stop());
    assert_eq!(s.map(|a| a.into_char()), StopOr('W'));
    assert_eq!(t.unwrap_or(AA::X), AA::X);
    assert_eq!(s.unwrap(), AA::W);
    assert_eq!(t.into_option(), None);
    assert_eq!(r.res_or(0), Ok(AA::M));
    assert_eq!(t.res_or(0), Err(0));
    assert_eq!(Stopped::from_option(Some(AA::A)), Res(AA::A));
    assert_eq!(Stopped::<AA>::default(), Stop);
    assert_eq!(s.flat_map(|_| Stopped::<u8>::Stop), Stop);
}

#[test]
fn gapped_wrappers() {
    let b: Gapped<DNA> = Base(DNA::A);
    let g: Gapped<DNA> = Gap;
    assert!(b.is_base());
    assert!(g.is_gap());
    assert_eq!(b.map(|x| x.rank()), Base(1));
    assert_eq!(g.map_or(0, |x| x.rank()), 0);
    assert_eq!(g.unwrap_or_else(|| DNA::N), DNA::N);
    assert_eq!(b.base_or("gap"), Ok(DNA::A));
    assert_eq!(g.ok_or("gap"), Err("gap"));
    assert_eq!(Gapped::from_option(None::<DNA>), Gap);
    assert_eq!(Gapped::<DNA>::default(), Gap);
    assert!(Base(DNA::A).matches(&Base(DNA::N)));
    assert!(!Base(DNA::A).matches(&Gap));
    assert!(Gap::<DNA>.matches(&Gap));
}
