use textbook_exchange::market::TextbookExchange;
use textbook_exchange::types::{Book, Config, ListingType, MarketError, Party, Payout, User};

fn s(text: &str) -> String {
    text.to_string()
}

/// A marketplace initialized with a 2 percent fee.
fn setup_contract() -> (TextbookExchange, String, String) {
    let admin = s("GADMIN");
    let token_contract = s("CTOKEN");
    let mut market = TextbookExchange::new();
    market.initialize(admin.clone(), token_contract.clone(), 2).unwrap();
    (market, admin, token_contract)
}

/// What `who` receives from the transfers of a payout.
fn received(payout: &Payout, who: &str) -> i128 {
    payout
        .transfers
        .iter()
        .filter(|t| matches!(&t.to, Party::Account(a) if a == who))
        .map(|t| t.amount)
        .sum()
}

fn paid_to_contract(payout: &Payout) -> i128 {
    payout
        .transfers
        .iter()
        .filter(|t| matches!(t.to, Party::Contract))
        .map(|t| t.amount)
        .sum()
}

#[test]
fn test_list_exchange_and_search() {
    let (mut client, _admin, _) = setup_contract();

    let user = s("GUSER");
    let id = client
        .list_for_exchange(user.clone(), s("Toan 10 - Canh Dieu"), s("Toan"), 10, 4)
        .unwrap();
    assert_eq!(id, 1);

    let books = client.search_by_grade(10);
    assert_eq!(books.len(), 1);

    let exchange_books = client.search_for_exchange();
    assert_eq!(exchange_books.len(), 1);

    let sale_books = client.search_for_sale();
    assert_eq!(sale_books.len(), 0);
}

#[test]
fn test_buy_book_with_token() {
    let (mut client, _admin, token_contract) = setup_contract();

    let seller = s("GSELLER");
    let buyer = s("GBUYER");

    let book_id = client
        .list_for_sale(seller.clone(), s("Ly 12 - Ket noi"), s("Ly"), 12, 3, 1000)
        .unwrap();

    let payout = client.buy_book(buyer.clone(), book_id).unwrap();
    assert_eq!(payout.token_contract, token_contract);

    let book = client.get_book(book_id).unwrap();
    assert_eq!(book.is_available, false);

    // The seller receives 980 (1000 less the 2% fee); the contract keeps 20.
    assert_eq!(received(&payout, &seller), 980);
    assert_eq!(client.get_fee_balance(), 20);

    let seller_stats = client.get_user(seller.clone());
    assert_eq!(seller_stats.books_sold, 1);
    assert_eq!(seller_stats.total_earned, 980);

    let buyer_stats = client.get_user(buyer.clone());
    assert_eq!(buyer_stats.books_bought, 1);
    assert_eq!(buyer_stats.total_spent, 1000);
}

#[test]
fn test_update_price() {
    let (mut client, _, _) = setup_contract();

    let seller = s("GSELLER");
    let book_id = client
        .list_for_sale(seller.clone(), s("Hoa 11"), s("Hoa"), 11, 5, 500)
        .unwrap();

    client.update_price(seller.clone(), book_id, 800).unwrap();
    let book = client.get_book(book_id).unwrap();
    assert_eq!(book.price, 800);
}

#[test]
fn test_withdraw_fees() {
    let (mut client, _admin, _token_contract) = setup_contract();

    let seller = s("GSELLER");
    let buyer = s("GBUYER");

    let book_id = client
        .list_for_sale(seller.clone(), s("Van 9"), s("Van"), 9, 2, 1000)
        .unwrap();

    client.buy_book(buyer.clone(), book_id).unwrap();
    assert_eq!(client.get_fee_balance(), 20);

    client.withdraw_fees().unwrap();
    assert_eq!(client.get_fee_balance(), 0);
}

#[test]
fn initialize_only_once() {
    let (mut market, _, _) = setup_contract();
    assert_eq!(
        market.initialize(s("GOTHER"), s("COTHER"), 5),
        Err(MarketError::AlreadyInitialized)
    );
    assert_eq!(market.get_token_contract(), Ok(s("CTOKEN")));
    assert_eq!(market.get_admin(), Some(s("GADMIN")));
}

#[test]
fn initialize_rejects_fee_above_ten_percent() {
    let mut market = TextbookExchange::new();
    assert_eq!(market.initialize(s("GADMIN"), s("CTOKEN"), 11), Err(MarketError::FeeTooHigh));
    assert_eq!(market.get_token_contract(), Err(MarketError::NotInitialized));
    assert_eq!(market.initialize(s("GADMIN"), s("CTOKEN"), 10), Ok(()));
}

#[test]
fn grade_and_condition_are_checked_in_order() {
    assert_eq!(TextbookExchange::validate_grade_condition(0, 0), Err(MarketError::InvalidGrade));
    assert_eq!(TextbookExchange::validate_grade_condition(13, 3), Err(MarketError::InvalidGrade));
    assert_eq!(TextbookExchange::validate_grade_condition(1, 0), Err(MarketError::InvalidCondition));
    assert_eq!(TextbookExchange::validate_grade_condition(12, 6), Err(MarketError::InvalidCondition));
    assert_eq!(TextbookExchange::validate_grade_condition(12, 5), Ok(()));
    assert_eq!(TextbookExchange::validate_grade_condition(1, 1), Ok(()));
}

#[test]
fn listing_rejects_bad_input_and_changes_nothing() {
    let (mut market, _, _) = setup_contract();
    assert_eq!(
        market.list_for_exchange(s("GA"), s("T"), s("S"), 0, 3),
        Err(MarketError::InvalidGrade)
    );
    assert_eq!(
        market.list_for_sale(s("GA"), s("T"), s("S"), 5, 9, 100),
        Err(MarketError::InvalidCondition)
    );
    assert_eq!(
        market.list_for_sale(s("GA"), s("T"), s("S"), 5, 3, 0),
        Err(MarketError::InvalidPrice)
    );
    assert_eq!(
        market.list_for_sale(s("GA"), s("T"), s("S"), 5, 3, -7),
        Err(MarketError::InvalidPrice)
    );
    assert_eq!(market.total_books(), 0);
    assert_eq!(market.get_user(s("GA")).books_listed, 0);
}

#[test]
fn listing_before_initialize_is_allowed() {
    let mut market = TextbookExchange::new();
    assert_eq!(market.list_for_exchange(s("GA"), s("T"), s("S"), 3, 3), Ok(1));
    assert_eq!(market.list_for_sale(s("GA"), s("T2"), s("S"), 3, 3, 10), Ok(2));
    assert_eq!(market.total_books(), 2);
    // Buying needs the payment token.
    assert_eq!(market.buy_book(s("GB"), 2).err(), Some(MarketError::NotInitialized));
    assert_eq!(market.withdraw_fees().err(), Some(MarketError::NotInitialized));
}

#[test]
fn listed_book_reads_back() {
    let (mut market, _, _) = setup_contract();
    let id = market
        .list_for_sale(s("GA"), s("Toan 12"), s("Toan"), 12, 4, 750)
        .unwrap();
    assert_eq!(id, 1);
    assert_eq!(market.total_books(), 1);
    let book: Book = market.get_book(id).unwrap();
    assert_eq!(book.id, 1);
    assert_eq!(book.title, "Toan 12");
    assert_eq!(book.subject, "Toan");
    assert_eq!(book.grade, 12);
    assert_eq!(book.owner, "GA");
    assert_eq!(book.condition, 4);
    assert_eq!(book.listing_type, ListingType::Sale);
    assert_eq!(book.price, 750);
    assert!(book.is_available);
    let ex = market.list_for_exchange(s("GA"), s("Van 6"), s("Van"), 6, 1).unwrap();
    assert_eq!(ex, 2);
    assert_eq!(market.get_book(ex).unwrap().price, 0);
    assert_eq!(market.get_user(s("GA")).books_listed, 2);
    assert_eq!(market.get_book(0).err(), Some(MarketError::BookNotFound));
    assert_eq!(market.get_book(3).err(), Some(MarketError::BookNotFound));
}

#[test]
fn buy_errors_in_order() {
    let (mut market, _, _) = setup_contract();
    let sale = market.list_for_sale(s("GA"), s("T"), s("S"), 5, 3, 100).unwrap();
    let swap = market.list_for_exchange(s("GA"), s("T"), s("S"), 5, 3).unwrap();
    assert_eq!(market.buy_book(s("GB"), 9).err(), Some(MarketError::BookNotFound));
    assert_eq!(market.buy_book(s("GB"), swap).err(), Some(MarketError::NotForSale));
    assert_eq!(market.buy_book(s("GA"), sale).err(), Some(MarketError::OwnBook));
    market.buy_book(s("GB"), sale).unwrap();
    assert_eq!(market.buy_book(s("GC"), sale).err(), Some(MarketError::NotAvailable));
}

#[test]
fn sale_with_fee_rounded_to_zero_pays_seller_everything() {
    let (mut market, _, _) = setup_contract();
    let id = market.list_for_sale(s("GA"), s("T"), s("S"), 5, 3, 49).unwrap();
    let payout = market.buy_book(s("GB"), id).unwrap();
    assert_eq!(payout.transfers.len(), 1);
    assert_eq!(received(&payout, "GA"), 49);
    assert_eq!(paid_to_contract(&payout), 0);
    assert_eq!(market.get_fee_balance(), 0);
    assert_eq!(market.get_user(s("GA")).total_earned, 49);
}

#[test]
fn sale_transfers_come_from_the_buyer_in_order() {
    let (mut market, _, _) = setup_contract();
    let id = market.list_for_sale(s("GA"), s("T"), s("S"), 5, 3, 1000).unwrap();
    let payout = market.buy_book(s("GB"), id).unwrap();
    assert_eq!(payout.transfers.len(), 2);
    assert!(matches!(&payout.transfers[0].from, Party::Account(a) if a == "GB"));
    assert!(matches!(&payout.transfers[0].to, Party::Account(a) if a == "GA"));
    assert_eq!(payout.transfers[0].amount, 980);
    assert!(matches!(&payout.transfers[1].from, Party::Account(a) if a == "GB"));
    assert!(matches!(payout.transfers[1].to, Party::Contract));
    assert_eq!(payout.transfers[1].amount, 20);
    // Law: the transfers add up to the price, and the contract's part is the fee collected.
    assert_eq!(received(&payout, "GA") + paid_to_contract(&payout), 1000);
    assert_eq!(paid_to_contract(&payout), market.get_fee_balance());
}

#[test]
fn fee_of_ten_percent_on_odd_price() {
    let mut market = TextbookExchange::new();
    market.initialize(s("GADMIN"), s("CTOKEN"), 10).unwrap();
    let id = market.list_for_sale(s("GA"), s("T"), s("S"), 5, 3, 1999).unwrap();
    let payout = market.buy_book(s("GB"), id).unwrap();
    assert_eq!(paid_to_contract(&payout), 199);
    assert_eq!(received(&payout, "GA"), 1800);
}

#[test]
fn sale_price_overflow_is_refused() {
    let (mut market, _, _) = setup_contract();
    let id = market
        .list_for_sale(s("GA"), s("T"), s("S"), 5, 3, i128::MAX)
        .unwrap();
    assert_eq!(market.buy_book(s("GB"), id).err(), Some(MarketError::Overflow));
    assert!(market.get_book(id).unwrap().is_available);
    assert_eq!(market.get_fee_balance(), 0);
    assert_eq!(market.get_user(s("GB")).books_bought, 0);
}

#[test]
fn exchange_is_counted_for_both_sides() {
    let (mut market, _, _) = setup_contract();
    let swap = market.list_for_exchange(s("GA"), s("T"), s("S"), 5, 3).unwrap();
    let sale = market.list_for_sale(s("GA"), s("T"), s("S"), 5, 3, 10).unwrap();
    assert_eq!(market.request_exchange(s("GB"), 7), Err(MarketError::BookNotFound));
    assert_eq!(market.request_exchange(s("GB"), sale), Err(MarketError::NotForExchange));
    assert_eq!(market.request_exchange(s("GA"), swap), Err(MarketError::OwnBook));
    assert_eq!(market.request_exchange(s("GB"), swap), Ok(()));
    assert_eq!(market.request_exchange(s("GC"), swap), Err(MarketError::NotAvailable));
    assert_eq!(market.get_user(s("GA")).exchanges_done, 1);
    assert_eq!(market.get_user(s("GB")).exchanges_done, 1);
    assert!(!market.get_book(swap).unwrap().is_available);
    assert_eq!(market.search_for_exchange().len(), 0);
    assert_eq!(market.get_fee_balance(), 0);
}

#[test]
fn update_price_errors_in_order() {
    let (mut market, _, _) = setup_contract();
    let sale = market.list_for_sale(s("GA"), s("T"), s("S"), 5, 3, 10).unwrap();
    let swap = market.list_for_exchange(s("GA"), s("T"), s("S"), 5, 3).unwrap();
    assert_eq!(market.update_price(s("GA"), 5, 20), Err(MarketError::BookNotFound));
    assert_eq!(market.update_price(s("GB"), sale, 20), Err(MarketError::NotOwner));
    assert_eq!(market.update_price(s("GA"), swap, 20), Err(MarketError::NotForSale));
    assert_eq!(market.update_price(s("GA"), sale, 0), Err(MarketError::InvalidPrice));
    assert_eq!(market.get_book(sale).unwrap().price, 10);
    market.unlist_book(s("GA"), sale).unwrap();
    assert_eq!(market.update_price(s("GA"), sale, 20), Err(MarketError::NotAvailable));
}

#[test]
fn unlisted_book_stays_off_the_market() {
    let (mut market, _, _) = setup_contract();
    let sale = market.list_for_sale(s("GA"), s("T"), s("S"), 5, 3, 10).unwrap();
    assert_eq!(market.unlist_book(s("GB"), sale), Err(MarketError::NotOwner));
    assert_eq!(market.unlist_book(s("GA"), 2), Err(MarketError::BookNotFound));
    assert_eq!(market.unlist_book(s("GA"), sale), Ok(()));
    assert_eq!(market.unlist_book(s("GA"), sale), Err(MarketError::NotAvailable));
    assert_eq!(market.buy_book(s("GB"), sale).err(), Some(MarketError::NotAvailable));
    assert_eq!(market.search_for_sale().len(), 0);
    assert_eq!(market.total_books(), 1);
}

#[test]
fn searches_return_available_matches_in_id_order() {
    let (mut market, _, _) = setup_contract();
    market.list_for_sale(s("GA"), s("A"), s("Toan"), 10, 3, 10).unwrap();
    market.list_for_exchange(s("GA"), s("B"), s("Ly"), 10, 3).unwrap();
    market.list_for_sale(s("GA"), s("C"), s("Toan"), 11, 3, 10).unwrap();
    market.list_for_exchange(s("GA"), s("D"), s("Toan"), 10, 3).unwrap();
    market.unlist_book(s("GA"), 4).unwrap();

    let by_grade: Vec<u64> = market.search_by_grade(10).iter().map(|b| b.id).collect();
    assert_eq!(by_grade, vec![1, 2]);
    let by_subject: Vec<u64> = market.search_by_subject(s("Toan")).iter().map(|b| b.id).collect();
    assert_eq!(by_subject, vec![1, 3]);
    let for_sale: Vec<u64> = market.search_for_sale().iter().map(|b| b.id).collect();
    assert_eq!(for_sale, vec![1, 3]);
    let for_exchange: Vec<u64> = market.search_for_exchange().iter().map(|b| b.id).collect();
    assert_eq!(for_exchange, vec![2]);
    // Law: the two listing-type searches together cover the available books.
    assert_eq!(for_sale.len() + for_exchange.len(), 3);
}

#[test]
fn withdraw_sends_balance_to_admin_once() {
    let (mut market, admin, token) = setup_contract();
    assert_eq!(market.withdraw_fees().err(), Some(MarketError::NoFees));
    let id = market.list_for_sale(s("GA"), s("T"), s("S"), 5, 3, 1000).unwrap();
    market.buy_book(s("GB"), id).unwrap();
    let payout = market.withdraw_fees().unwrap();
    assert_eq!(payout.token_contract, token);
    assert_eq!(payout.transfers.len(), 1);
    assert!(matches!(payout.transfers[0].from, Party::Contract));
    assert_eq!(received(&payout, &admin), 20);
    assert_eq!(market.get_fee_balance(), 0);
    assert_eq!(market.withdraw_fees().err(), Some(MarketError::NoFees));
}

#[test]
fn unknown_user_has_empty_record() {
    let market = TextbookExchange::new();
    let u: User = market.get_user(s("GNOBODY"));
    assert_eq!(u.address, "GNOBODY");
    assert_eq!(u.books_listed, 0);
    assert_eq!(u.exchanges_done, 0);
    assert_eq!(u.books_sold, 0);
    assert_eq!(u.books_bought, 0);
    assert_eq!(u.total_earned, 0);
    assert_eq!(u.total_spent, 0);
}

#[test]
fn stats_overflow_is_refused_without_change() {
    let near_full = User {
        address: s("GB"),
        books_listed: 0,
        exchanges_done: 0,
        books_sold: 0,
        books_bought: 0,
        total_earned: 0,
        total_spent: i128::MAX - 5,
    };
    let config = Config { admin: s("GADMIN"), token_contract: s("CTOKEN"), fee_percent: 2 };
    let mut market = TextbookExchange::from_parts(Some(config), 0, Vec::new(), vec![near_full]).unwrap();
    let id = market.list_for_sale(s("GA"), s("T"), s("S"), 5, 3, 10).unwrap();
    assert_eq!(market.buy_book(s("GB"), id).err(), Some(MarketError::Overflow));
    assert!(market.get_book(id).unwrap().is_available);
    assert_eq!(market.get_user(s("GA")).books_sold, 0);
    assert_eq!(market.get_user(s("GB")).total_spent, i128::MAX - 5);
}

#[test]
fn parts_round_trip_and_bad_parts_are_refused() {
    let (mut market, _, _) = setup_contract();
    market.list_for_sale(s("GA"), s("T"), s("S"), 5, 3, 10).unwrap();
    market.buy_book(s("GB"), 1).unwrap();
    let (config, fees, books, users) = market.into_parts();
    assert_eq!(users.len(), 2);
    let rebuilt = TextbookExchange::from_parts(config.clone(), fees, books.clone(), users.clone()).unwrap();
    assert_eq!(rebuilt.total_books(), 1);
    assert_eq!(rebuilt.get_user(s("GB")).books_bought, 1);

    assert!(TextbookExchange::from_parts(config.clone(), -1, books.clone(), users.clone()).is_none());
    let mut twice = users.clone();
    twice.push(users[0].clone());
    assert!(TextbookExchange::from_parts(config.clone(), fees, books.clone(), twice).is_none());
    let mut renumbered = books.clone();
    renumbered[0].id = 2;
    assert!(TextbookExchange::from_parts(config.clone(), fees, renumbered, users.clone()).is_none());
    let high_fee = Config { admin: s("GADMIN"), token_contract: s("CTOKEN"), fee_percent: 11 };
    assert!(TextbookExchange::from_parts(Some(high_fee), fees, books, users).is_none());
}

#[test]
fn sold_book_never_changes_again() {
    let (mut market, _, _) = setup_contract();
    let id = market.list_for_sale(s("GA"), s("T"), s("S"), 5, 3, 300).unwrap();
    market.buy_book(s("GB"), id).unwrap();
    let before = market.get_book(id).unwrap();
    assert_eq!(market.update_price(s("GA"), id, 999), Err(MarketError::NotAvailable));
    assert_eq!(market.unlist_book(s("GA"), id), Err(MarketError::NotAvailable));
    assert_eq!(market.buy_book(s("GC"), id).err(), Some(MarketError::NotAvailable));
    market.list_for_exchange(s("GC"), s("U"), s("S"), 5, 3).unwrap();
    market.withdraw_fees().unwrap();
    let after = market.get_book(id).unwrap();
    assert_eq!(after.price, before.price);
    assert_eq!(after.owner, before.owner);
    assert!(!after.is_available);
    assert_eq!(market.total_books(), 2);
}
