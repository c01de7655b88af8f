use lightpool_clob_index::ids::{market_uuid, order_uuid};

#[test]
fn market_uuid_is_v5_of_the_address_in_the_oid_namespace() {
    assert_eq!(market_uuid("0xmarket1"), 0x91b32ad9d82059e588bd80c262ead424);
    assert_eq!(market_uuid("0xmarket1"), market_uuid("0xmarket1"));
    assert_ne!(market_uuid("0xmarket1"), market_uuid("0xmarket2"));
}

#[test]
fn order_uuid_names_market_and_chain_order() {
    let market_id = market_uuid("0xmarket1");
    assert_eq!(order_uuid(market_id, "42"), 0x77724e8b768954a8b198a4ee0654bdb4);
    assert_ne!(order_uuid(market_id, "42"), order_uuid(market_id, "43"));
}
