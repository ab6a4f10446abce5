use mun_frontend::abi::{Privacy, TypeGroup};

#[test]
fn type_group_predicates() {
    assert!(TypeGroup::FundamentalTypes.is_fundamental());
    assert!(!TypeGroup::FundamentalTypes.is_struct());
    assert!(TypeGroup::StructTypes.is_struct());
    assert!(!TypeGroup::StructTypes.is_fundamental());
}

#[test]
fn privacy_levels_differ() {
    assert_ne!(Privacy::Public, Privacy::Private);
}
