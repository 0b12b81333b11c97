use hd_path::{ChildIndex, DerivationPathError, HARDENED_BIT};

#[test]
fn from_normal_accepts_31_bit_values() {
    assert_eq!(ChildIndex::from_normal(0), Ok(ChildIndex::Normal(0)));
    assert_eq!(ChildIndex::from_normal(44), Ok(ChildIndex::Normal(44)));
    assert_eq!(ChildIndex::from_normal(0x7fff_ffff), Ok(ChildIndex::Normal(0x7fff_ffff)));
}

#[test]
fn from_hardened_accepts_31_bit_values() {
    assert_eq!(ChildIndex::from_hardened(0), Ok(ChildIndex::Hardened(0)));
    assert_eq!(ChildIndex::from_hardened(44), Ok(ChildIndex::Hardened(44)));
    assert_eq!(ChildIndex::from_hardened(0x7fff_ffff), Ok(ChildIndex::Hardened(0x7fff_ffff)));
}

#[test]
fn constructors_reject_bit_31() {
    for n in [0x8000_0000u32, 0x8000_0001, 0xffff_ffff] {
        assert_eq!(ChildIndex::from_normal(n), Err(DerivationPathError::InvalidChildNumber(n)));
        assert_eq!(ChildIndex::from_hardened(n), Err(DerivationPathError::InvalidChildNumber(n)));
    }
}

#[test]
fn raw_round_trip() {
    for raw in [0u32, 1, 44, 0x7fff_ffff, 0x8000_0000, 0x8000_002c, 0xffff_ffff] {
        assert_eq!(u32::from(ChildIndex::from(raw)), raw);
    }
}

#[test]
fn raw_decoding() {
    assert_eq!(ChildIndex::from(44), ChildIndex::Normal(44));
    assert_eq!(ChildIndex::from(0x8000_002c), ChildIndex::Hardened(44));
    assert_eq!(ChildIndex::from(0xffff_ffff), ChildIndex::Hardened(0x7fff_ffff));
    assert_eq!(u32::from(ChildIndex::Hardened(0)), HARDENED_BIT);
    assert_eq!(u32::from(ChildIndex::Normal(7)), 7);
}

#[test]
fn index_round_trip() {
    for idx in [ChildIndex::Normal(0), ChildIndex::Hardened(0), ChildIndex::Normal(0x7fff_ffff), ChildIndex::Hardened(0x7fff_ffff)] {
        assert_eq!(ChildIndex::from(u32::from(idx)), idx);
    }
}

#[test]
fn raw_high_bit_selects_variant() {
    assert!(ChildIndex::from(0).is_normal());
    assert!(ChildIndex::from(0x8000_0000).is_hardened());
}

#[test]
fn parse_accepts_both_markers() {
    assert_eq!(ChildIndex::parse("0"), Ok(ChildIndex::Normal(0)));
    assert_eq!(ChildIndex::parse("0'"), Ok(ChildIndex::Hardened(0)));
    assert_eq!(ChildIndex::parse("0h"), Ok(ChildIndex::Hardened(0)));
    assert_eq!(ChildIndex::parse("44'"), Ok(ChildIndex::Hardened(44)));
    assert_eq!(ChildIndex::parse("2147483647h"), Ok(ChildIndex::Hardened(2147483647)));
}

#[test]
fn parse_through_from_str() {
    assert_eq!("12".parse::<ChildIndex>(), Ok(ChildIndex::Normal(12)));
    assert_eq!("12'".parse::<ChildIndex>(), Ok(ChildIndex::Hardened(12)));
    assert_eq!("0h".parse::<ChildIndex>(), Ok(ChildIndex::Hardened(0)));
    assert_eq!("".parse::<ChildIndex>(), Err(DerivationPathError::InvalidChildNumberFormat));
    assert_eq!("'".parse::<ChildIndex>(), Err(DerivationPathError::InvalidChildNumberFormat));
    assert_eq!("4294967296".parse::<ChildIndex>(), Err(DerivationPathError::InvalidChildNumberFormat));
    assert_eq!("2147483648'".parse::<ChildIndex>(), Err(DerivationPathError::InvalidChildNumber(2147483648)));
    let idx = ChildIndex::Hardened(44);
    assert_eq!(idx.to_string().parse::<ChildIndex>(), Ok(idx));
}

#[test]
fn parse_rejects_malformed_text() {
    for s in ["", "abc", "4294967296", "'", "h", "-1", "1 ", " 1", "1''", "1H", "+", "+'"] {
        assert_eq!(ChildIndex::parse(s), Err(DerivationPathError::InvalidChildNumberFormat), "{}", s);
    }
}

#[test]
fn parse_reads_sign_and_leading_zeros() {
    assert_eq!(ChildIndex::parse("+5"), Ok(ChildIndex::Normal(5)));
    assert_eq!(ChildIndex::parse("+5'"), Ok(ChildIndex::Hardened(5)));
    assert_eq!(ChildIndex::parse("007"), Ok(ChildIndex::Normal(7)));
    assert_eq!(ChildIndex::parse("4294967295"), Err(DerivationPathError::InvalidChildNumber(4294967295)));
}

#[test]
fn parse_rejects_out_of_range_number() {
    assert_eq!(ChildIndex::parse("2147483648"), Err(DerivationPathError::InvalidChildNumber(2147483648)));
    assert_eq!(ChildIndex::parse("2147483648'"), Err(DerivationPathError::InvalidChildNumber(2147483648)));
}

#[test]
fn display_is_canonical() {
    assert_eq!(ChildIndex::Normal(44).to_string(), "44");
    assert_eq!(ChildIndex::Hardened(44).to_string(), "44'");
    assert_eq!(ChildIndex::Normal(0).to_string(), "0");
    assert_eq!(ChildIndex::Hardened(2147483647).to_string(), "2147483647'");
    assert_eq!(ChildIndex::Normal(4294967295).to_string(), "4294967295");
}

#[test]
fn text_round_trip() {
    for idx in [ChildIndex::Normal(0), ChildIndex::Hardened(0), ChildIndex::Normal(10), ChildIndex::Hardened(1000), ChildIndex::Normal(2147483647), ChildIndex::Hardened(2147483647)] {
        assert_eq!(ChildIndex::parse(&idx.to_string()), Ok(idx));
    }
}

#[test]
fn normal_and_hardened_are_exclusive() {
    for idx in [ChildIndex::Normal(3), ChildIndex::Hardened(3), ChildIndex::from(0), ChildIndex::from(0xffff_ffff)] {
        assert_ne!(idx.is_normal(), idx.is_hardened());
    }
    assert!(ChildIndex::Normal(3).is_normal());
    assert!(!ChildIndex::Hardened(3).is_normal());
}

#[test]
fn ordering_is_total() {
    assert!(ChildIndex::Normal(5) < ChildIndex::Normal(6));
    assert!(ChildIndex::Hardened(5) < ChildIndex::Hardened(6));
    assert!(ChildIndex::Normal(5) < ChildIndex::Hardened(5));
    assert!(ChildIndex::Normal(7) < ChildIndex::Hardened(0));
    assert_eq!(ChildIndex::Normal(5).partial_cmp(&ChildIndex::Hardened(5)), Some(std::cmp::Ordering::Less));
    assert_eq!(ChildIndex::Hardened(5).partial_cmp(&ChildIndex::Hardened(5)), Some(std::cmp::Ordering::Equal));
    assert_eq!(ChildIndex::Hardened(5).cmp(&ChildIndex::Normal(5)), std::cmp::Ordering::Greater);
    let mut v = vec![ChildIndex::Hardened(1), ChildIndex::Normal(9), ChildIndex::Hardened(0), ChildIndex::Normal(2)];
    v.sort();
    assert_eq!(v, vec![ChildIndex::Normal(2), ChildIndex::Normal(9), ChildIndex::Hardened(0), ChildIndex::Hardened(1)]);
}

#[test]
fn partial_cmp_agrees_with_cmp() {
    let all = [ChildIndex::Normal(0), ChildIndex::Normal(1), ChildIndex::Hardened(0), ChildIndex::Hardened(1)];
    for a in all {
        for b in all {
            assert_eq!(a.partial_cmp(&b), Some(a.cmp(&b)));
        }
    }
}
