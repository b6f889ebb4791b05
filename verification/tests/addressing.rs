use urban_dao::addr::check_address;
use urban_dao::addr::derive_address;
use urban_dao::addr::Seed;
use urban_dao::types::ErrorCode;
use urban_dao::types::Identity;

#[test]
fn derivation_is_repeatable() {
    let seed = Seed::Payment { payer: Identity { id: 77 }, year: 2024 };
    assert_eq!(derive_address(&seed), derive_address(&seed));
    assert_eq!(derive_address(&Seed::Authority), derive_address(&Seed::Authority));
}

#[test]
fn distinct_seeds_get_distinct_addresses() {
    let addrs = vec![
        derive_address(&Seed::Authority),
        derive_address(&Seed::Treasury),
        derive_address(&Seed::WardRate { ward: 5 }),
        derive_address(&Seed::WardRate { ward: 6 }),
        derive_address(&Seed::Payment { payer: Identity { id: 3 }, year: 2024 }),
        derive_address(&Seed::Payment { payer: Identity { id: 3 }, year: 2025 }),
        derive_address(&Seed::Payment { payer: Identity { id: 4 }, year: 2024 }),
        derive_address(&Seed::GrievanceRecord { id: 0 }),
        derive_address(&Seed::ProjectRecord { id: 0 }),
        derive_address(&Seed::FeedbackRecord { id: 0 }),
        derive_address(&Seed::ProjectRecord { id: 1 }),
    ];
    for i in 0..addrs.len() {
        for j in 0..addrs.len() {
            if i != j {
                assert_ne!(addrs[i], addrs[j]);
            }
        }
    }
}

#[test]
fn address_layout_is_tag_then_fields() {
    // One discriminator byte, then the fields little-endian.
    assert_eq!(derive_address(&Seed::Authority), vec![0u8]);
    assert_eq!(derive_address(&Seed::Treasury), vec![1u8]);
    assert_eq!(derive_address(&Seed::WardRate { ward: 0x0105 }), vec![2u8, 0x05, 0x01]);
    assert_eq!(
        derive_address(&Seed::Payment { payer: Identity { id: 0x0201 }, year: 0x07e8 }),
        vec![3u8, 0x01, 0x02, 0, 0, 0, 0, 0, 0, 0xe8, 0x07]
    );
}

#[test]
fn check_address_accepts_the_derived_address() {
    let seed = Seed::GrievanceRecord { id: 9 };
    let good = derive_address(&seed);
    assert_eq!(check_address(&good, &seed), Ok(()));
}

#[test]
fn check_address_rejects_substitution() {
    let seed = Seed::GrievanceRecord { id: 9 };
    let other = derive_address(&Seed::GrievanceRecord { id: 10 });
    assert_eq!(check_address(&other, &seed), Err(ErrorCode::AddressMismatch));
    let wrong_kind = derive_address(&Seed::ProjectRecord { id: 9 });
    assert_eq!(check_address(&wrong_kind, &seed), Err(ErrorCode::AddressMismatch));
    let truncated = vec![4u8];
    assert_eq!(check_address(&truncated, &seed), Err(ErrorCode::AddressMismatch));
}
