use seqrs::alphabet::Alphabet;
use seqrs::complement::{reverse_complement, Complement};
use seqrs::convert::{FromChar, IntoChar};
use seqrs::dna::DNA;
use seqrs::dna4::DNA4;
use seqrs::errors::{SeqError, SeqErrorKind};
use seqrs::gapped::Gapped;
use seqrs::gapped::Gapped::{Base, Gap};
use seqrs::matcher::{Match, RedundantAlphabet};

#[test]
fn dna_test_complement_vec() {
    let d = vec![DNA::A, DNA::T, DNA::G, DNA::C];
    let c: Vec<DNA> = reverse_complement(&d);
    assert_eq!(c, vec![DNA::G, DNA::C, DNA::A, DNA::T]);

    let d = vec![DNA::A, DNA::T, DNA::G, DNA::C];
    let c: Vec<DNA> = reverse_complement(&d);
    assert_eq!(c, vec![DNA::G, DNA::C, DNA::A, DNA::T]);
}

#[test]
fn dna_test_gapped_complement() {
    assert_eq!(Gap::<DNA>.complement(), Gap);
    assert_eq!(Base(DNA::T).complement(), Base(DNA::A));

    assert_eq!(Base(DNA::T).complement(), Base(DNA::A));
    assert_eq!((&Base(DNA::T)).complement(), Base(DNA::A));

    assert_eq!((&Base(DNA::T)).complement(), Base(DNA::A));
}

#[test]
fn dna_test_gapped_complement_iter() {
    let seq = vec![Base(DNA::A), Base(DNA::T), Gap, Base(DNA::G)];
    let comp: Vec<Gapped<DNA>> = reverse_complement(&seq);
    assert_eq!(comp, vec![Base(DNA::C), Gap, Base(DNA::A), Base(DNA::T)]);

    let seq = vec![Base(DNA::A), Base(DNA::T), Gap, Base(DNA::G)];
    let comp: Vec<Gapped<DNA>> = reverse_complement(&seq);
    assert_eq!(comp, vec![Base(DNA::C), Gap, Base(DNA::A), Base(DNA::T)]);
}

#[test]
fn dna_test_match() {
    assert!(DNA::A.matches(&DNA::A));
    assert!(DNA::T.matches(&DNA::T));
    assert!(DNA::G.matches(&DNA::G));
    assert!(DNA::C.matches(&DNA::C));
    assert!(DNA::A.matches(&DNA::N));
    assert!(DNA::N.matches(&DNA::A));
    assert!(DNA::N.matches(&DNA::N));
    assert!(DNA::B.matches(&DNA::D)); // CGT and AGT share G and T
    assert!(DNA::R.matches(&DNA::S)); // AG and GC share G
    assert!(DNA::S.matches(&DNA::M)); // GC and AC share C
    assert!(DNA::S.matches(&DNA::S));
    assert!(DNA::A.doesnt_match(&DNA::T));
    assert!(DNA::A.doesnt_match(&DNA::C));
    assert!(DNA::A.doesnt_match(&DNA::G));
    assert!(DNA::T.doesnt_match(&DNA::A));
    assert!(DNA::T.doesnt_match(&DNA::C));
    assert!(DNA::T.doesnt_match(&DNA::G));
    assert!(DNA::C.doesnt_match(&DNA::G));
    assert!(DNA::G.doesnt_match(&DNA::C));
    assert!(DNA::V.doesnt_match(&DNA::T)); // ACG and T share nothing
    assert!(DNA::R.doesnt_match(&DNA::Y)); // AG and CT share nothing
    assert!(DNA::M.doesnt_match(&DNA::K)); // AC and GT share nothing
}

#[test]
fn dna_test_cardinality() {
    assert_eq!(DNA::cardinality(), 15);
}

#[test]
fn test_from_dna4() {
    assert_eq!(DNA::from(DNA4::A), DNA::A);
    assert_eq!(DNA::from(DNA4::T), DNA::T);
    assert_eq!(DNA::from(DNA4::G), DNA::G);
    assert_eq!(DNA::from(DNA4::C), DNA::C);
}

#[test]
fn dna4_test_complement_vec() {
    let d = vec![DNA4::A, DNA4::T, DNA4::G, DNA4::C];
    let c: Vec<DNA4> = reverse_complement(&d);
    assert_eq!(c, vec![DNA4::G, DNA4::C, DNA4::A, DNA4::T]);

    let d = vec![DNA4::A, DNA4::T, DNA4::G, DNA4::C];
    let c: Vec<DNA4> = reverse_complement(&d);
    assert_eq!(c, vec![DNA4::G, DNA4::C, DNA4::A, DNA4::T]);
}

#[test]
fn dna4_test_gapped_complement() {
    assert_eq!(Gap::<DNA4>.complement(), Gap);
    assert_eq!(Base(DNA4::T).complement(), Base(DNA4::A));

    assert_eq!(Base(DNA4::T).complement(), Base(DNA4::A));
    assert_eq!((&Base(DNA4::T)).complement(), Base(DNA4::A));

    assert_eq!((&Base(DNA4::T)).complement(), Base(DNA4::A));
}

#[test]
fn dna4_test_gapped_complement_iter() {
    let seq = vec![Base(DNA4::A), Base(DNA4::T), Gap, Base(DNA4::G)];
    let comp: Vec<Gapped<DNA4>> = reverse_complement(&seq);
    assert_eq!(comp, vec![Base(DNA4::C), Gap, Base(DNA4::A), Base(DNA4::T)]);

    let seq = vec![Base(DNA4::A), Base(DNA4::T), Gap, Base(DNA4::G)];
    let comp: Vec<Gapped<DNA4>> = reverse_complement(&seq);
    assert_eq!(comp, vec![Base(DNA4::C), Gap, Base(DNA4::A), Base(DNA4::T)]);
}

#[test]
fn dna4_test_match() {
    assert!(DNA4::A.matches(&DNA4::A));
    assert!(DNA4::T.matches(&DNA4::T));
    assert!(DNA4::G.matches(&DNA4::G));
    assert!(DNA4::C.matches(&DNA4::C));
    assert!(DNA4::A.doesnt_match(&DNA4::T));
    assert!(DNA4::A.doesnt_match(&DNA4::C));
    assert!(DNA4::A.doesnt_match(&DNA4::G));
}

#[test]
fn test_from_dna() {
    assert_eq!(DNA4::try_from_dna(&DNA::A).unwrap(), DNA4::A);
    assert_eq!(DNA4::try_from_dna(&DNA::T).unwrap(), DNA4::T);
    assert_eq!(DNA4::try_from_dna(&DNA::G).unwrap(), DNA4::G);
    assert_eq!(DNA4::try_from_dna(&DNA::C).unwrap(), DNA4::C);
    assert!(DNA4::try_from_dna(&DNA::N).is_err());
    assert!(DNA4::try_from_dna(&DNA::M).is_err());
    assert!(DNA4::try_from_dna(&DNA::W).is_err());
}

#[test]
fn dna4_test_cardinality() {
    assert_eq!(DNA4::cardinality(), 4);
}

#[test]
fn gapped_test_from() {
    assert_eq!(Gapped::<DNA>::from_char('-').unwrap(), Gapped::Gap);
    assert_eq!(Gapped::<DNA>::from_char('A').unwrap(), Gapped::Base(DNA::A));
    assert_eq!(Gapped::<DNA>::from_char('T').unwrap(), Gapped::Base(DNA::T));
    assert_eq!(Gapped::<DNA>::from_char(*&'-').unwrap(), Gapped::Gap);
    assert_eq!(Gapped::<DNA>::from_char(*&'A').unwrap(), Gapped::Base(DNA::A));
    assert_eq!(Gapped::<DNA>::from_char(*&'T').unwrap(), Gapped::Base(DNA::T));

    assert_eq!(Gapped::<DNA>::from_byte(b'T').unwrap(), Gapped::Base(DNA::T));
    assert_eq!(Gapped::<DNA>::from_byte(b'-').unwrap(), Gapped::Gap);
    assert_eq!(Gapped::<DNA>::from_byte(*&b'T').unwrap(), Gapped::Base(DNA::T));
    assert_eq!(Gapped::<DNA>::from_byte(*&b'-').unwrap(), Gapped::Gap);

    assert_eq!(Gapped::Base(DNA::T).into_byte(), b'T');
    assert_eq!(Gapped::Gap::<DNA>.into_byte(), b'-');
    assert_eq!((&Gapped::Base(DNA::T)).into_byte(), b'T');
    assert_eq!((&Gapped::Gap::<DNA>).into_byte(), b'-');

    assert_eq!(Gapped::Base(DNA::T).into_char(), 'T');
    assert_eq!(Gapped::Gap::<DNA>.into_char(), '-');
    assert_eq!((&Gapped::Base(DNA::T)).into_char(), 'T');
    assert_eq!((&Gapped::Gap::<DNA>).into_char(), '-');
}

#[test]
fn gapped_test_complement() {
    assert_eq!(Gapped::Gap::<DNA>.complement(), Gapped::Gap);
    assert_eq!(Gapped::Base(DNA::T).complement(), Gapped::Base(DNA::A));
}

#[test]
fn alphabet_test_match() {
    assert!(DNA::A.matches(&DNA::N));
    assert!(DNA::A.matches(&DNA::A));
    assert!(!DNA::A.matches(&DNA::C));
    assert!(DNA::A.doesnt_match(&DNA::C));
}

#[test]
fn alphabet_test_from() {
    assert_eq!(DNA::from_char('A').unwrap(), DNA::A);
    assert_eq!(DNA::from_char(*&'A').unwrap(), DNA::A);
    assert_eq!(DNA::from_byte(b'A').unwrap(), DNA::A);
    assert_eq!(DNA::from_byte(*&b'A').unwrap(), DNA::A);

    assert_eq!(DNA::from_char('a').unwrap(), DNA::A);
    assert_eq!(DNA::from_char('T').unwrap(), DNA::T);
    assert_eq!(DNA::from_char(*&'A').unwrap(), DNA::A);
    assert_eq!(DNA::from_char(*&'a').unwrap(), DNA::A);
    assert_eq!(DNA::from_char(*&'T').unwrap(), DNA::T);
    assert_eq!(DNA::from_char(*&'c').unwrap(), DNA::C);
    assert_eq!(DNA::from_char(*&'G').unwrap(), DNA::G);

    assert_eq!(DNA::A.into_byte(), b'A');
    assert_eq!((&DNA::A).into_byte(), b'A');
    assert_eq!(DNA::A.into_char(), 'A');
    assert_eq!((&DNA::A).into_char(), 'A');
}

#[test]
fn alphabet_test_eq() {
    assert_eq!(DNA::A, DNA::A);
    assert_eq!(DNA::T, DNA::T);
    assert_eq!(DNA::G, DNA::G);
    assert_eq!(DNA::C, DNA::C);
}

#[test]
fn test_to_from_u8() {
    for base in DNA::variants() {
        assert_eq!(DNA::from_byte(base.into_byte()).unwrap(), base);
        assert_eq!(DNA::from_byte(*&base.into_byte()).unwrap(), base);
        assert_eq!(DNA::from_byte(base.into_byte().to_ascii_lowercase()).unwrap(), base);
        assert_eq!(DNA::from_byte(*&base.into_byte().to_ascii_lowercase()).unwrap(), base);
    }
}

#[test]
fn test_to_from_char() {
    for base in DNA::variants() {
        assert_eq!(DNA::from_char(base.into_char()).unwrap(), base);
        assert_eq!(DNA::from_char(*&base.into_char()).unwrap(), base);
        assert_eq!(DNA::from_char(base.into_char().to_ascii_lowercase()).unwrap(), base);
        assert_eq!(DNA::from_char(*&base.into_char().to_ascii_lowercase()).unwrap(), base);
    }
}

#[test]
fn dna_test_complement() {
    for base in DNA::variants() {
        assert_eq!(base.complement().complement(), base);
    }
}

#[test]
fn test_into_char() {
    assert_eq!(IntoChar::into_byte(&DNA::A), b'A');
    let x: char = DNA::A.into_char();
    assert_eq!(x, 'A');
    let x: u8 = (&DNA::A).into_byte();
    assert_eq!(x, b'A');
}

#[test]
fn dna_iupac_test_from() {
    assert_eq!(Gapped::<DNA>::from_byte(b'A').unwrap(), Base(DNA::A));
    assert_eq!(Gapped::<DNA>::from_byte(b'a').unwrap(), Base(DNA::A));
    assert_eq!(Gapped::<DNA>::from_byte(b'-').unwrap(), Gap);
    assert_eq!(Gapped::<DNA>::from_byte(b'T').unwrap(), Base(DNA::T));
    assert_eq!(Gapped::<DNA>::from_byte(b'c').unwrap(), Base(DNA::C));
    assert_eq!(Gapped::<DNA>::from_byte(b'G').unwrap(), Base(DNA::G));
    assert_eq!(Gapped::<DNA>::from_byte(b'w').unwrap(), Base(DNA::W));
}

#[test]
fn dna_iupac_test_complement() {
    assert_eq!(DNA::A.complement(), DNA::T);
    assert_eq!(DNA::T.complement(), DNA::A);
    assert_eq!(DNA::G.complement(), DNA::C);
    assert_eq!(DNA::C.complement(), DNA::G);
}

#[test]
fn dna_iupac_test_eq() {
    assert!(DNA::A.matches(&DNA::A));
    assert!(DNA::T.matches(&DNA::T));
    assert!(DNA::G.matches(&DNA::G));
    assert!(DNA::C.matches(&DNA::C));
    assert!(!DNA::A.matches(&DNA::T));
    assert!(!DNA::A.matches(&DNA::C));
    assert!(!DNA::A.matches(&DNA::G));
    assert!(!DNA::T.matches(&DNA::A));
    assert!(!DNA::T.matches(&DNA::C));
    assert!(!DNA::T.matches(&DNA::G));
    assert!(!DNA::C.matches(&DNA::G));
    assert!(!DNA::G.matches(&DNA::C));
    assert!(DNA::A.matches(&DNA::N));
    assert!(DNA::N.matches(&DNA::A));
    assert!(DNA::N.matches(&DNA::N));
    assert!(DNA::B.matches(&DNA::D)); // CGT and AGT share G and T
    assert!(DNA::R.matches(&DNA::S)); // AG and GC share G
    assert!(!DNA::V.matches(&DNA::T)); // ACG and T share nothing
    assert!(!DNA::R.matches(&DNA::Y)); // AG and CT share nothing
    assert!(!DNA::M.matches(&DNA::K)); // AC and GT share nothing
    assert!(DNA::S.matches(&DNA::M)); // GC and AC share C
    assert!(DNA::S.matches(&DNA::S));
}

#[test]
fn gapped_test_size() {
    assert_eq!(std::mem::size_of::<Gapped<DNA>>(), 1);
}

#[test]
fn test_from_iter() {
    let seq: Result<Vec<Gapped<DNA>>, SeqError> =
        "ATG-N".bytes().map(Gapped::<DNA>::from_byte).collect();
    assert_eq!(
        seq.unwrap(),
        vec![Base(DNA::A), Base(DNA::T), Base(DNA::G), Gap, Base(DNA::N)]
    );
}

#[test]
fn union_of_a_and_g_is_r() {
    assert_eq!(DNA::A.union(&DNA::G), DNA::R);
    assert_eq!(DNA::G.union(&DNA::A), DNA::R);
    assert_eq!(DNA::R.union(&DNA::Y), DNA::N);
}

#[test]
fn a_matches_n_but_not_c() {
    assert!(DNA::A.matches(&DNA::N));
    assert!(!DNA::A.matches(&DNA::C));
    // matching is not transitive
    assert!(DNA::N.matches(&DNA::T));
    assert!(!DNA::A.matches(&DNA::T));
}

#[test]
fn unknown_nucleotide_letter_is_refused() {
    let e = DNA::from_char('Q').unwrap_err();
    assert_eq!(*e.kind(), SeqErrorKind::AlphabetReadError { base: 'Q' });
    let e = DNA::from_byte(b'q').unwrap_err();
    assert_eq!(*e.kind(), SeqErrorKind::AlphabetReadError { base: 'q' });
    let e = DNA::from_char('\u{3b1}').unwrap_err();
    assert_eq!(*e.kind(), SeqErrorKind::AlphabetReadError { base: '\u{3b1}' });
}

#[test]
fn every_symbol_reads_back_in_both_cases() {
    for base in DNA::variants() {
        let b = base.into_byte();
        assert_eq!(DNA::from_byte(b), Ok(base));
        assert_eq!(DNA::from_byte(b.to_ascii_lowercase()), Ok(base));
    }
    for base in DNA4::variants() {
        let b = base.into_byte();
        assert_eq!(DNA4::from_byte(b), Ok(base));
        assert_eq!(DNA4::from_byte(b.to_ascii_lowercase()), Ok(base));
    }
}

#[test]
fn union_and_intersection_are_commutative() {
    for a in DNA::variants() {
        for b in DNA::variants() {
            assert_eq!(a.union(&b), b.union(&a));
            assert_eq!(a.intersection(&b), b.intersection(&a));
        }
    }
}

#[test]
fn union_and_intersection_are_associative_and_distribute() {
    for a in DNA::variants() {
        for b in DNA::variants() {
            for c in DNA::variants() {
                assert_eq!(a.union(&b.union(&c)), a.union(&b).union(&c));
                let left = b.intersection(&c).and_then(|x| a.intersection(&x));
                let right = a.intersection(&b).and_then(|x| x.intersection(&c));
                assert_eq!(left, right);
                let left = b.intersection(&c).map_or(a, |x| a.union(&x));
                let right = a.union(&b).intersection(&a.union(&c));
                assert_eq!(Some(left), right);
                let left = a.intersection(&b.union(&c));
                let r1 = a.intersection(&b);
                let r2 = a.intersection(&c);
                let right = r1.map_or(r2, |x| r2.map_or(r1, |y| Some(x.union(&y))));
                assert_eq!(left, right);
            }
        }
    }
}

#[test]
fn difference_is_intersection_with_complement() {
    for a in DNA::variants() {
        for b in DNA::variants() {
            let via = DNA::N.difference(&b).and_then(|c| a.intersection(&c));
            assert_eq!(a.difference(&b), via);
        }
    }
    assert_eq!(DNA::N.difference(&DNA::A), Some(DNA::B));
    assert_eq!(DNA::A.difference(&DNA::N), None);
    assert_eq!(DNA::R.difference(&DNA::A), Some(DNA::G));
    assert_eq!(DNA::A.intersection(&DNA::C), None);
    assert_eq!(DNA::D.intersection(&DNA::B), Some(DNA::K));
}

#[test]
fn complement_is_an_involution() {
    for a in DNA::variants() {
        assert_eq!(a.complement().complement(), a);
    }
    assert_eq!(DNA::S.complement(), DNA::S);
    assert_eq!(DNA::W.complement(), DNA::W);
    assert_eq!(DNA::R.complement(), DNA::Y);
    assert_eq!(DNA::B.complement(), DNA::V);
}

#[test]
fn alphabet_sizes() {
    assert_eq!(DNA::variants().len(), 15);
    assert_eq!(DNA4::variants().len(), 4);
    assert_eq!(DNA4::cardinality(), 4);
}

#[test]
fn ranks_and_masks() {
    assert_eq!(DNA::A.rank(), 1);
    assert_eq!(DNA::N.rank(), 15);
    assert_eq!(DNA::from_mask(5), DNA::R);
    assert_eq!(DNA4::T.rank(), 3);
    assert_eq!(DNA4::from_rank(2), Some(DNA4::G));
    assert_eq!(DNA4::from_rank(4), None);
    assert_eq!(DNA::default(), DNA::N);
}

#[test]
fn redundant_nucleotides_list_their_bases() {
    assert_eq!(DNA::N.redundant_matches(), vec![DNA::A, DNA::C, DNA::G, DNA::T]);
    assert_eq!(DNA::Y.redundant_matches(), vec![DNA::C, DNA::T]);
    assert_eq!(DNA::A.redundant_matches(), vec![]);
    assert!(DNA::N.is_redundant());
    assert!(!DNA::G.is_redundant());
    assert_eq!(DNA::A.name(), "Adenine");
    assert_eq!(DNA::Y.name(), "Cytosine or Thymine");
}

#[test]
fn narrowing_a_redundant_base_fails() {
    let e = DNA4::try_from_dna(&DNA::N).unwrap_err();
    assert_eq!(
        *e.kind(),
        SeqErrorKind::RedundantAlphabetConversionError { base: 'N' }
    );
}
