use illuvi_analytics::db::assets_handler::AssetSaver;
use illuvi_analytics::db::db_handler::{distinct_ids, mint_records};
use illuvi_analytics::db::mints_handler::MintSaver;
use illuvi_analytics::db::orders_handler::OrderSaver;
use illuvi_analytics::db::transfers_handler::TransferSaver;
use illuvi_analytics::model::asset::{Asset, Assets, Metadata};
use illuvi_analytics::model::mint::{self, Mint};
use illuvi_analytics::model::order::{self, Buy, BuyData, Order, Sell, SellData};
use illuvi_analytics::model::transfer::{self, Transfer};
use illuvi_analytics::time_utils::parse_rfc3339;

fn mint_result(token_id: &str, minted_on: &str) -> mint::TheResult {
    mint::TheResult {
        minted_on: minted_on.to_string(),
        transaction_id: 7,
        status: "success".to_string(),
        wallet: "0xabc".to_string(),
        token: mint::Token { the_type: "ERC721".to_string(), data: mint::Data { token_id: token_id.to_string() } },
    }
}

fn order_result(token_id: Option<&str>, quantity: &str, decimals: Option<i32>) -> order::TheResult {
    order::TheResult {
        order_id: 11,
        status: "active".to_string(),
        wallet: "0xseller".to_string(),
        sell: Sell { data: SellData { token_id: token_id.map(|t| t.to_string()), token_address: "0xland".to_string() } },
        buy: Buy {
            buy_currency: "ETH".to_string(),
            data: BuyData { quantity: quantity.to_string(), decimals, symbol: None },
        },
        timestamp: "2022-01-02T03:04:05.123Z".to_string(),
        updated_timestamp: "2022-01-03T00:00:00Z".to_string(),
    }
}

fn transfer_result(token_id: &str, timestamp: &str) -> transfer::TheResult {
    transfer::TheResult {
        transaction_id: 99,
        status: "success".to_string(),
        wallet_from: "0xfrom".to_string(),
        wallet_to: "0xto".to_string(),
        token: transfer::Token { data: transfer::Data { token_id: token_id.to_string(), token_address: "0xland".to_string() } },
        timestamp: timestamp.to_string(),
    }
}

fn asset(token_id: &str) -> Asset {
    Asset {
        token_id: token_id.to_string(),
        token_address: "0xland".to_string(),
        current_owner: "0xowner".to_string(),
        created_at: "2021-12-01T10:00:00Z".to_string(),
        updated_at: "2021-12-02T10:00:00+02:00".to_string(),
        metadata: Metadata {
            name: "Land 1".to_string(),
            tier: 1,
            solon: 2,
            carbon: 3,
            crypton: 4,
            silicon: 5,
            hydrogen: 6,
            hyperion: 7,
            landmark: "None".to_string(),
            image_url: "https://img".to_string(),
        },
    }
}

#[test]
fn parse_rfc3339_reads_instant_and_offset() {
    let t = parse_rfc3339("2021-12-01T10:00:00Z").unwrap();
    assert_eq!((t.unix_seconds, t.nanos, t.offset_seconds), (1638352800, 0, 0));
    let t = parse_rfc3339("2021-12-01T12:00:00.5+02:00").unwrap();
    assert_eq!((t.unix_seconds, t.nanos, t.offset_seconds), (1638352800, 500_000_000, 7200));
    assert!(parse_rfc3339("2021-12-01 10:00").is_none());
    assert!(parse_rfc3339("").is_none());
}

#[test]
fn mint_row_parses_token_id_and_time() {
    let row = MintSaver.row(&mint_result("42", "2021-12-01T10:00:00Z")).unwrap();
    assert_eq!(row.transaction_id, 7);
    assert_eq!(row.status, "success");
    assert_eq!(row.wallet, "0xabc");
    assert_eq!(row.token_type, "ERC721");
    assert_eq!(row.token_id, 42);
    assert_eq!(row.minted_on.unix_seconds, 1638352800);
}

#[test]
fn mint_row_is_missing_for_unreadable_values() {
    assert!(MintSaver.row(&mint_result("x42", "2021-12-01T10:00:00Z")).is_none());
    assert!(MintSaver.row(&mint_result("42", "yesterday")).is_none());
}

#[test]
fn mint_rows_follow_the_page() {
    let page = Mint {
        result: vec![mint_result("1", "2021-12-01T10:00:00Z"), mint_result("2", "2021-12-01T11:00:00Z")],
        cursor: String::new(),
    };
    let rows = MintSaver.rows(&page).unwrap();
    assert_eq!(rows.len(), 2);
    assert_eq!(rows[0].token_id, 1);
    assert_eq!(rows[1].token_id, 2);
    assert_eq!(rows[1].minted_on.unix_seconds - rows[0].minted_on.unix_seconds, 3600);
    let bad = Mint { result: vec![mint_result("1", "2021-12-01T10:00:00Z"), mint_result("", "x")], cursor: String::new() };
    assert!(MintSaver.rows(&bad).is_none());
}

#[test]
fn transfer_rows_parse_token_ids() {
    let page = Transfer { result: vec![transfer_result("5", "2022-02-02T02:02:02Z")], cursor: "c".to_string() };
    let rows = TransferSaver.rows(&page).unwrap();
    assert_eq!(rows[0].transaction_id, 99);
    assert_eq!(rows[0].wallet_from, "0xfrom");
    assert_eq!(rows[0].wallet_to, "0xto");
    assert_eq!(rows[0].token_id, 5);
    assert_eq!(rows[0].token_address, "0xland");
    assert!(TransferSaver.row(&transfer_result("2147483648", "2022-02-02T02:02:02Z")).is_none());
}

#[test]
fn asset_rows_keep_metadata() {
    let page = Assets { result: vec![asset("17")], cursor: String::new() };
    let rows = AssetSaver.rows(&page).unwrap();
    let row = &rows[0];
    assert_eq!(row.token_id, 17);
    assert_eq!((row.tier, row.solon, row.carbon, row.crypton, row.silicon, row.hydrogen, row.hyperion), (1, 2, 3, 4, 5, 6, 7));
    assert_eq!(row.name, "Land 1");
    assert_eq!(row.landmark, "None");
    assert_eq!(row.current_owner, "0xowner");
    assert_eq!(row.updated_on.offset_seconds, 7200);
    assert_eq!(row.updated_on.unix_seconds - row.created_on.unix_seconds, 86400 - 7200);
}

#[test]
fn order_row_carries_the_price_text() {
    let row = OrderSaver.row(&order_result(Some("3"), "1500000000000000000", Some(18))).unwrap();
    assert_eq!(row.order_id, 11);
    assert_eq!(row.token_id, 3);
    assert_eq!(row.buy_currency, "ETH");
    assert_eq!(row.buy_price, "1.500000000000000000");
    assert_eq!(row.created_on.nanos, 123_000_000);
}

#[test]
fn order_row_is_missing_without_token_id_or_decimals() {
    assert!(OrderSaver.row(&order_result(None, "1", Some(0))).is_none());
    assert!(OrderSaver.row(&order_result(Some("3"), "1", None)).is_none());
    assert!(OrderSaver.row(&order_result(Some("3"), "1", Some(3))).is_none());
    assert!(OrderSaver.row(&order_result(Some("3"), "1", Some(-1))).is_none());
}

#[test]
fn order_rows_follow_the_page() {
    let page = Order { result: vec![order_result(Some("3"), "5", Some(2))], cursor: String::new() };
    let rows = OrderSaver.rows(&page).unwrap();
    assert_eq!(rows[0].buy_price, "0.05");
}

#[test]
fn distinct_ids_drop_repetitions() {
    let set = distinct_ids(&vec![3, 1, 3, 2, 1]);
    assert_eq!(set.len(), 3);
    assert!(set.contains(&1) && set.contains(&2) && set.contains(&3));
    assert!(distinct_ids(&vec![]).is_empty());
}

#[test]
fn mint_records_keep_token_id_text() {
    let records = mint_records(&vec![mint_result("0042", "2021-12-01T10:00:00Z")]).unwrap();
    assert_eq!(records[0].token_id, "0042");
    assert!(mint_records(&vec![mint_result("1", "bad")]).is_none());
}
