use orientation_tracker::Orientation;

const ALL: [Orientation; 7] = [
    Orientation::Unknown,
    Orientation::PortraitUp,
    Orientation::PortraitDown,
    Orientation::LandscapeUp,
    Orientation::LandscapeDown,
    Orientation::FaceUp,
    Orientation::FaceDown,
];

#[test]
fn flat_truth_table() {
    assert!(!Orientation::Unknown.is_flat());
    assert!(!Orientation::PortraitUp.is_flat());
    assert!(!Orientation::PortraitDown.is_flat());
    assert!(!Orientation::LandscapeUp.is_flat());
    assert!(!Orientation::LandscapeDown.is_flat());
    assert!(Orientation::FaceUp.is_flat());
    assert!(Orientation::FaceDown.is_flat());
}

#[test]
fn landscape_truth_table() {
    assert!(!Orientation::Unknown.is_landscape());
    assert!(!Orientation::PortraitUp.is_landscape());
    assert!(!Orientation::PortraitDown.is_landscape());
    assert!(Orientation::LandscapeUp.is_landscape());
    assert!(Orientation::LandscapeDown.is_landscape());
    assert!(!Orientation::FaceUp.is_landscape());
    assert!(!Orientation::FaceDown.is_landscape());
}

#[test]
fn portrait_truth_table() {
    assert!(!Orientation::Unknown.is_portrait());
    assert!(Orientation::PortraitUp.is_portrait());
    assert!(Orientation::PortraitDown.is_portrait());
    assert!(!Orientation::LandscapeUp.is_portrait());
    assert!(!Orientation::LandscapeDown.is_portrait());
    assert!(!Orientation::FaceUp.is_portrait());
    assert!(!Orientation::FaceDown.is_portrait());
}

#[test]
fn each_variant_is_in_exactly_one_category_or_none() {
    for o in ALL {
        let count = [o.is_flat(), o.is_landscape(), o.is_portrait()]
            .iter()
            .filter(|b| **b)
            .count();
        if o == Orientation::Unknown {
            assert_eq!(count, 0);
        } else {
            assert_eq!(count, 1);
        }
    }
}

#[test]
fn names_match_the_variants() {
    assert_eq!(Orientation::Unknown.name(), "Unknown");
    assert_eq!(Orientation::PortraitUp.name(), "PortraitUp");
    assert_eq!(Orientation::PortraitDown.name(), "PortraitDown");
    assert_eq!(Orientation::LandscapeUp.name(), "LandscapeUp");
    assert_eq!(Orientation::LandscapeDown.name(), "LandscapeDown");
    assert_eq!(Orientation::FaceUp.name(), "FaceUp");
    assert_eq!(Orientation::FaceDown.name(), "FaceDown");
}

#[test]
fn names_are_pairwise_distinct() {
    for (i, a) in ALL.iter().enumerate() {
        for (j, b) in ALL.iter().enumerate() {
            assert_eq!(a.name() == b.name(), i == j);
        }
    }
}

#[test]
fn name_agrees_with_debug_output() {
    for o in ALL {
        assert_eq!(format!("{:?}", o), o.name());
    }
}

#[test]
fn orientation_is_copy_and_comparable() {
    let a = Orientation::FaceUp;
    let b = a;
    assert_eq!(a, b);
    assert_ne!(a, Orientation::FaceDown);
    for (i, x) in ALL.iter().enumerate() {
        for (j, y) in ALL.iter().enumerate() {
            assert_eq!(x == y, i == j);
        }
    }
}
