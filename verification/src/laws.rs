use vstd::prelude::*;
use crate::types::{
    fee_of, paid_to_contract, total_amount, Book, BookFilter, ListingType, MarketError, Party,
    PayoutView, StatsDelta, Transfer,
};
use crate::market::{book_ok, no_delta, sale_transfers, MarketState};

verus! {

/// One operation of the marketplace, with its arguments.
pub enum Action {
    Initialize { admin: String, token_contract: String, fee_percent: u32 },
    ListForExchange { owner: String, title: String, subject: String, grade: u32, condition: u32 },
    ListForSale {
        owner: String,
        title: String,
        subject: String,
        grade: u32,
        condition: u32,
        price: i128,
    },
    BuyBook { buyer: String, book_id: u64 },
    RequestExchange { requester: String, book_id: u64 },
    UpdatePrice { owner: String, book_id: u64, new_price: i128 },
    UnlistBook { owner: String, book_id: u64 },
    WithdrawFees,
}

/// The state after an operation, or the error that refuses it.
pub open spec fn apply(s: MarketState, a: Action) -> Result<MarketState, MarketError> {
    match a {
        Action::Initialize { admin, token_contract, fee_percent } => s.initialize(
            admin,
            token_contract,
            fee_percent,
        ),
        Action::ListForExchange { owner, title, subject, grade, condition } => match s.list_for_exchange(
            owner,
            title,
            subject,
            grade,
            condition,
        ) {
            Ok((t, _)) => Ok(t),
            Err(e) => Err(e),
        },
        Action::ListForSale { owner, title, subject, grade, condition, price } => match s.list_for_sale(
            owner,
            title,
            subject,
            grade,
            condition,
            price,
        ) {
            Ok((t, _)) => Ok(t),
            Err(e) => Err(e),
        },
        Action::BuyBook { buyer, book_id } => match s.buy_book(buyer, book_id) {
            Ok((t, _)) => Ok(t),
            Err(e) => Err(e),
        },
        Action::RequestExchange { requester, book_id } => s.request_exchange(requester, book_id),
        Action::UpdatePrice { owner, book_id, new_price } => s.update_price(owner, book_id, new_price),
        Action::UnlistBook { owner, book_id } => s.unlist_book(owner, book_id),
        Action::WithdrawFees => match s.withdraw_fees() {
            Ok((t, _)) => Ok(t),
            Err(e) => Err(e),
        },
    }
}

/// The platform fee is never negative and never more than a tenth of the price.
pub proof fn law_fee_bounds(price: int, fee_percent: int)
    requires
        price > 0,
        0 <= fee_percent <= 10,
    ensures
        0 <= fee_of(price, fee_percent) <= price / 10,
        price - fee_of(price, fee_percent) > 0,
{
    assert(0 <= (price * fee_percent) / 100 <= price / 10) by (nonlinear_arith)
        requires
            price > 0,
            0 <= fee_percent <= 10,
    ;
    assert(price / 10 < price);
}

proof fn lemma_credit_keeps_wf(s: MarketState, a: String, d: StatsDelta)
    requires
        s.wf(),
        s.credit(a, d) is Some,
    ensures
        s.credit(a, d).unwrap().wf(),
        s.credit(a, d).unwrap().books == s.books,
        s.credit(a, d).unwrap().config == s.config,
        s.credit(a, d).unwrap().fee_balance == s.fee_balance,
{
    let t = s.credit(a, d).unwrap();
    assert(s.user_of(a).address@ == a@);
    assert forall|k: Seq<char>| #[trigger] t.users.contains_key(k) implies t.users[k].address@ == k by {
        if k != a@ {
            assert(s.users.contains_key(k));
        }
    }
}

/// Every operation keeps the invariant of the marketplace: collected fees are
/// never negative, the fee stays at most 10 percent, books keep ids 1, 2, ...
/// in order with valid grades, conditions and prices (a sale price above 0, an
/// exchange price of 0), and each activity record is filed under its address.
pub proof fn law_operations_keep_invariant(s: MarketState, a: Action)
    requires
        s.wf(),
        apply(s, a) is Ok,
    ensures
        apply(s, a).unwrap().wf(),
{
    match a {
        Action::Initialize { admin, token_contract, fee_percent } => {},
        Action::ListForExchange { owner, title, subject, grade, condition } => {
            lemma_list_keeps_wf(s, owner, title, subject, grade, condition, ListingType::Exchange, 0);
        },
        Action::ListForSale { owner, title, subject, grade, condition, price } => {
            lemma_list_keeps_wf(s, owner, title, subject, grade, condition, ListingType::Sale, price);
        },
        Action::BuyBook { buyer, book_id } => {
            let b = s.book(book_id);
            let c = s.config.unwrap();
            assert(book_ok(s.books[book_id - 1], book_id - 1));
            law_fee_bounds(b.price as int, c.fee_percent as int);
            let fee = fee_of(b.price as int, c.fee_percent as int);
            let sold = MarketState {
                fee_balance: if fee > 0 {
                    (s.fee_balance + fee) as i128
                } else {
                    s.fee_balance
                },
                ..s.with_book(book_id, Book { is_available: false, ..b })
            };
            assert(sold.wf()) by {
                assert forall|i: int| 0 <= i < sold.books.len() implies #[trigger] book_ok(
                    sold.books[i],
                    i,
                ) by {
                    assert(book_ok(s.books[i], i));
                }
            }
            let sd = StatsDelta { sold: 1, earned: (b.price - fee) as i128, ..no_delta() };
            lemma_credit_keeps_wf(sold, b.owner, sd);
            let s1 = sold.credit(b.owner, sd).unwrap();
            lemma_credit_keeps_wf(s1, buyer, StatsDelta { bought: 1, spent: b.price, ..no_delta() });
        },
        Action::RequestExchange { requester, book_id } => {
            let b = s.book(book_id);
            let swapped = s.with_book(book_id, Book { is_available: false, ..b });
            assert(swapped.wf()) by {
                assert forall|i: int| 0 <= i < swapped.books.len() implies #[trigger] book_ok(
                    swapped.books[i],
                    i,
                ) by {
                    assert(book_ok(s.books[i], i));
                }
            }
            let d = StatsDelta { exchanges: 1, ..no_delta() };
            lemma_credit_keeps_wf(swapped, b.owner, d);
            lemma_credit_keeps_wf(swapped.credit(b.owner, d).unwrap(), requester, d);
        },
        Action::UpdatePrice { owner, book_id, new_price } => {
            let t = apply(s, a).unwrap();
            assert forall|i: int| 0 <= i < t.books.len() implies #[trigger] book_ok(t.books[i], i) by {
                assert(book_ok(s.books[i], i));
            }
        },
        Action::UnlistBook { owner, book_id } => {
            let t = apply(s, a).unwrap();
            assert forall|i: int| 0 <= i < t.books.len() implies #[trigger] book_ok(t.books[i], i) by {
                assert(book_ok(s.books[i], i));
            }
        },
        Action::WithdrawFees => {},
    }
}

proof fn lemma_list_keeps_wf(
    s: MarketState,
    owner: String,
    title: String,
    subject: String,
    grade: u32,
    condition: u32,
    listing_type: ListingType,
    price: i128,
)
    requires
        s.wf(),
        listing_type == ListingType::Exchange ==> price == 0,
        s.list(owner, title, subject, grade, condition, listing_type, price) is Ok,
    ensures
        s.list(owner, title, subject, grade, condition, listing_type, price).unwrap().0.wf(),
{
    let id = (s.books.len() + 1) as u64;
    let book = Book { id, title, subject, grade, owner, condition, listing_type, price, is_available: true };
    let listed = MarketState { books: s.books.push(book), ..s };
    assert(listed.wf()) by {
        assert forall|i: int| 0 <= i < listed.books.len() implies #[trigger] book_ok(
            listed.books[i],
            i,
        ) by {
            if i < s.books.len() {
                assert(book_ok(s.books[i], i));
            }
        }
    }
    lemma_credit_keeps_wf(listed, owner, StatsDelta { listed: 1, ..no_delta() });
}

/// Books are never removed and never change what they are: after any
/// operation every earlier book is still there with the same id, title,
/// subject, grade, owner, condition and listing type; and a book that is off
/// the market (sold, swapped or unlisted) stays exactly as it was, so it never
/// becomes available again.
pub proof fn law_books_are_permanent(s: MarketState, a: Action, i: int)
    requires
        s.wf(),
        apply(s, a) is Ok,
        0 <= i < s.books.len(),
    ensures
        ({
            let t = apply(s, a).unwrap();
            &&& s.books.len() <= t.books.len()
            &&& t.books[i].id == s.books[i].id
            &&& t.books[i].title == s.books[i].title
            &&& t.books[i].subject == s.books[i].subject
            &&& t.books[i].grade == s.books[i].grade
            &&& t.books[i].owner == s.books[i].owner
            &&& t.books[i].condition == s.books[i].condition
            &&& t.books[i].listing_type == s.books[i].listing_type
            &&& !s.books[i].is_available ==> t.books[i] == s.books[i]
        }),
{
    match a {
        Action::ListForExchange { owner, title, subject, grade, condition } => {
            lemma_list_books(s, owner, title, subject, grade, condition, ListingType::Exchange, 0);
        },
        Action::ListForSale { owner, title, subject, grade, condition, price } => {
            lemma_list_books(s, owner, title, subject, grade, condition, ListingType::Sale, price);
        },
        Action::BuyBook { buyer, book_id } => {
            let b = s.book(book_id);
            let c = s.config.unwrap();
            let fee = fee_of(b.price as int, c.fee_percent as int);
            let sold = MarketState {
                fee_balance: if fee > 0 {
                    (s.fee_balance + fee) as i128
                } else {
                    s.fee_balance
                },
                ..s.with_book(book_id, Book { is_available: false, ..b })
            };
            let sd = StatsDelta { sold: 1, earned: (b.price - fee) as i128, ..no_delta() };
            assert(sold.credit(b.owner, sd).unwrap().books == sold.books);
        },
        Action::RequestExchange { requester, book_id } => {
            let b = s.book(book_id);
            let swapped = s.with_book(book_id, Book { is_available: false, ..b });
            let d = StatsDelta { exchanges: 1, ..no_delta() };
            assert(swapped.credit(b.owner, d).unwrap().books == swapped.books);
        },
        _ => {},
    }
}

proof fn lemma_list_books(
    s: MarketState,
    owner: String,
    title: String,
    subject: String,
    grade: u32,
    condition: u32,
    listing_type: ListingType,
    price: i128,
)
    requires
        s.wf(),
        s.list(owner, title, subject, grade, condition, listing_type, price) is Ok,
    ensures
        ({
            let (t, id) = s.list(owner, title, subject, grade, condition, listing_type, price).unwrap();
            &&& id == s.books.len() + 1
            &&& t.books == s.books.push(
                Book { id, title, subject, grade, owner, condition, listing_type, price, is_available: true },
            )
            &&& t.user_of(owner).books_listed == s.user_of(owner).books_listed + 1
        }),
{
}

/// Listing a book gives it the id that follows the number of books listed so
/// far; afterwards `total_books` is that id, `get_book` of it answers the book as
/// listed and available, and the owner's listing count is one higher.
pub proof fn law_listed_book_is_readable(
    s: MarketState,
    owner: String,
    title: String,
    subject: String,
    grade: u32,
    condition: u32,
    price: i128,
    for_sale: bool,
)
    requires
        s.wf(),
        for_sale ==> s.list_for_sale(owner, title, subject, grade, condition, price) is Ok,
        !for_sale ==> s.list_for_exchange(owner, title, subject, grade, condition) is Ok,
    ensures
        ({
            let (t, id) = if for_sale {
                s.list_for_sale(owner, title, subject, grade, condition, price).unwrap()
            } else {
                s.list_for_exchange(owner, title, subject, grade, condition).unwrap()
            };
            let listing_type = if for_sale { ListingType::Sale } else { ListingType::Exchange };
            &&& id == s.total_books() + 1
            &&& t.total_books() == id
            &&& t.get_book(id) == Ok::<Book, MarketError>(
                Book {
                    id,
                    title,
                    subject,
                    grade,
                    owner,
                    condition,
                    listing_type,
                    price: if for_sale { price } else { 0 },
                    is_available: true,
                },
            )
            &&& t.user_of(owner).books_listed == s.user_of(owner).books_listed + 1
        }),
{
    if for_sale {
        lemma_list_books(s, owner, title, subject, grade, condition, ListingType::Sale, price);
    } else {
        lemma_list_books(s, owner, title, subject, grade, condition, ListingType::Exchange, 0);
    }
}

/// A sale moves exactly the price away from the buyer: the seller receives the
/// price less the fee, the contract receives the fee, and the collected fees
/// grow by exactly what the contract receives.  The book is then unavailable,
/// the seller has one more sale and has earned the price less the fee, the
/// buyer has one more purchase and has spent the price.
pub proof fn law_sale_splits_price(s: MarketState, buyer: String, book_id: u64)
    requires
        s.wf(),
        s.buy_book(buyer, book_id) is Ok,
    ensures
        ({
            let (t, p) = s.buy_book(buyer, book_id).unwrap();
            let b = s.book(book_id);
            let fee = t.fee_balance - s.fee_balance;
            &&& total_amount(p.transfers) == b.price
            &&& paid_to_contract(p.transfers) == fee
            &&& 0 <= fee <= b.price / 10
            &&& p.token_contract == s.config.unwrap().token_contract
            &&& t.get_book(book_id) == Ok::<Book, MarketError>(Book { is_available: false, ..b })
            &&& t.user_of(b.owner).books_sold == s.user_of(b.owner).books_sold + 1
            &&& t.user_of(b.owner).total_earned == s.user_of(b.owner).total_earned + b.price - fee
            &&& t.user_of(buyer).books_bought == s.user_of(buyer).books_bought + 1
            &&& t.user_of(buyer).total_spent == s.user_of(buyer).total_spent + b.price
        }),
{
    let b = s.book(book_id);
    let c = s.config.unwrap();
    assert(book_ok(s.books[book_id - 1], book_id - 1));
    law_fee_bounds(b.price as int, c.fee_percent as int);
    let fee = fee_of(b.price as int, c.fee_percent as int);
    let seller_amount = b.price - fee;
    let ts = sale_transfers(buyer, b.owner, seller_amount, fee);
    reveal_with_fuel(total_amount, 3);
    reveal_with_fuel(paid_to_contract, 3);
    if fee > 0 {
        assert(ts.drop_last() =~= seq![ts[0]]);
        assert(seq![ts[0]].drop_last() =~= Seq::<Transfer>::empty());
    } else {
        assert(ts.drop_last() =~= Seq::<Transfer>::empty());
    }
    let sold = MarketState {
        fee_balance: if fee > 0 {
            (s.fee_balance + fee) as i128
        } else {
            s.fee_balance
        },
        ..s.with_book(book_id, Book { is_available: false, ..b })
    };
    assert(sold.user_of(buyer) == s.user_of(buyer));
    assert(s.user_of(b.owner).address@ == b.owner@);
}

/// Withdrawing sends the whole collected balance from the contract to the
/// administrator and leaves nothing: a second withdrawal right after is refused
/// for want of fees.
pub proof fn law_withdraw_empties_balance(s: MarketState)
    requires
        s.wf(),
        s.withdraw_fees() is Ok,
    ensures
        ({
            let (t, p) = s.withdraw_fees().unwrap();
            &&& t.fee_balance == 0
            &&& total_amount(p.transfers) == s.fee_balance
            &&& p.transfers.len() == 1
            &&& p.transfers[0].from is Contract
            &&& p.transfers[0].to == Party::Account(s.config.unwrap().admin)
            &&& p.token_contract == s.config.unwrap().token_contract
            &&& t.withdraw_fees() == Err::<(MarketState, PayoutView), MarketError>(MarketError::NoFees)
            &&& t.books == s.books
            &&& t.users == s.users
        }),
{
    let (t, p) = s.withdraw_fees().unwrap();
    reveal_with_fuel(total_amount, 2);
    assert(p.transfers.drop_last() =~= Seq::<Transfer>::empty());
}

/// The marketplace is initialized at most once: after a successful
/// `initialize`, every further `initialize` is refused, and no operation ever
/// changes the administrator, the token or the fee again.
pub proof fn law_initialize_once(s: MarketState, a: Action)
    requires
        s.config is Some,
        apply(s, a) is Ok,
    ensures
        apply(s, a).unwrap().config == s.config,
        !(a is Initialize),
{
    match a {
        Action::ListForExchange { owner, title, subject, grade, condition } => {
            lemma_list_config(s, owner, title, subject, grade, condition, ListingType::Exchange, 0);
        },
        Action::ListForSale { owner, title, subject, grade, condition, price } => {
            lemma_list_config(s, owner, title, subject, grade, condition, ListingType::Sale, price);
        },
        _ => {},
    }
}

proof fn lemma_list_config(
    s: MarketState,
    owner: String,
    title: String,
    subject: String,
    grade: u32,
    condition: u32,
    listing_type: ListingType,
    price: i128,
)
    requires
        s.list(owner, title, subject, grade, condition, listing_type, price) is Ok,
    ensures
        s.list(owner, title, subject, grade, condition, listing_type, price).unwrap().0.config
            == s.config,
{
}

/// A swap is counted for both sides: the owner and the requester each have one
/// more exchange, and the book is no longer available.
pub proof fn law_exchange_counts_both(s: MarketState, requester: String, book_id: u64)
    requires
        s.wf(),
        s.request_exchange(requester, book_id) is Ok,
    ensures
        ({
            let t = s.request_exchange(requester, book_id).unwrap();
            let b = s.book(book_id);
            &&& t.user_of(b.owner).exchanges_done == s.user_of(b.owner).exchanges_done + 1
            &&& t.user_of(requester).exchanges_done == s.user_of(requester).exchanges_done + 1
            &&& t.get_book(book_id) == Ok::<Book, MarketError>(Book { is_available: false, ..b })
            &&& t.fee_balance == s.fee_balance
        }),
{
    let b = s.book(book_id);
    assert(s.user_of(b.owner).address@ == b.owner@);
}

/// Whether a book is on the market.
pub open spec fn on_market() -> spec_fn(Book) -> bool {
    |b: Book| b.is_available
}

proof fn lemma_partition(bs: Seq<Book>)
    ensures
        bs.filter(BookFilter::ForSale.pred()).len() + bs.filter(BookFilter::ForExchange.pred()).len()
            == bs.filter(on_market()).len(),
    decreases bs.len(),
{
    reveal_with_fuel(Seq::<_>::filter, 1);
    if bs.len() > 0 {
        lemma_partition(bs.drop_last());
    }
}

/// Every book on the market is found by exactly one of the two listing-type
/// searches: the books for sale and the books for exchange together are as many
/// as the available books.
pub proof fn law_search_partition(s: MarketState)
    ensures
        s.search(BookFilter::ForSale).len() + s.search(BookFilter::ForExchange).len()
            == s.books.filter(on_market()).len(),
{
    lemma_partition(s.books);
}

/// Only the owner manages a listing: a price update or an unlisting of an
/// existing book by anyone else is refused, and a buyer or swapper can never be
/// the owner.
pub proof fn law_only_owner_manages_listing(s: MarketState, caller: String, book_id: u64, new_price: i128)
    requires
        s.has_book(book_id),
        s.book(book_id).owner@ != caller@,
    ensures
        s.update_price(caller, book_id, new_price) == Err::<MarketState, MarketError>(
            MarketError::NotOwner,
        ),
        s.unlist_book(caller, book_id) == Err::<MarketState, MarketError>(MarketError::NotOwner),
        s.buy_book(s.book(book_id).owner, book_id) is Err,
        s.request_exchange(s.book(book_id).owner, book_id) is Err,
{
}

/// In a sale the buyer pays everything: every transfer of the payout comes
/// from the buyer and moves a positive amount; the first goes to the seller and
/// is the price less the fee, which is `price * fee_percent / 100` rounded down;
/// a second, present exactly when that fee is not zero, goes to the contract.
pub proof fn law_buyer_pays_everything(s: MarketState, buyer: String, book_id: u64)
    requires
        s.wf(),
        s.buy_book(buyer, book_id) is Ok,
    ensures
        ({
            let (t, p) = s.buy_book(buyer, book_id).unwrap();
            let b = s.book(book_id);
            let fee = (b.price * s.config.unwrap().fee_percent) / 100;
            &&& forall|i: int|
                0 <= i < p.transfers.len() ==> (#[trigger] p.transfers[i]).from == Party::Account(
                    buyer,
                ) && p.transfers[i].amount > 0
            &&& p.transfers.len() == if fee > 0 { 2int } else { 1int }
            &&& p.transfers[0].to == Party::Account(b.owner)
            &&& p.transfers[0].amount == b.price - fee
            &&& fee > 0 ==> p.transfers[1].to is Contract && p.transfers[1].amount == fee
            &&& t.fee_balance == s.fee_balance + fee
        }),
{
    let b = s.book(book_id);
    let c = s.config.unwrap();
    assert(book_ok(s.books[book_id - 1], book_id - 1));
    law_fee_bounds(b.price as int, c.fee_percent as int);
}

/// When a sale is owed: buying succeeds exactly when the book exists, is
/// listed for sale, is available, is not the buyer's own, the marketplace is
/// initialized, and no amount or counter would leave its integer range.
pub proof fn law_buy_succeeds_when_allowed(s: MarketState, buyer: String, book_id: u64)
    requires
        s.wf(),
    ensures
        s.buy_book(buyer, book_id) is Ok <==> ({
            &&& 1 <= book_id <= s.books.len()
            &&& s.books[book_id - 1].listing_type == ListingType::Sale
            &&& s.books[book_id - 1].is_available
            &&& s.books[book_id - 1].owner@ != buyer@
            &&& s.config is Some
            &&& {
                let price = s.books[book_id - 1].price;
                let pct = s.config.unwrap().fee_percent;
                let fee = (price * pct) / 100;
                let seller = s.user_of(s.books[book_id - 1].owner);
                let purchaser = s.user_of(buyer);
                &&& price * pct <= i128::MAX
                &&& (fee > 0 ==> s.fee_balance + fee <= i128::MAX)
                &&& seller.books_sold < u64::MAX
                &&& seller.total_earned + (price - fee) <= i128::MAX
                &&& purchaser.books_bought < u64::MAX
                &&& purchaser.total_spent + price <= i128::MAX
            }
        }),
{
    if 1 <= book_id <= s.books.len() {
        let b = s.book(book_id);
        assert(book_ok(s.books[book_id - 1], book_id - 1));
        if b.listing_type == ListingType::Sale && s.config is Some {
            let c = s.config.unwrap();
            law_fee_bounds(b.price as int, c.fee_percent as int);
            assert(b.price * c.fee_percent >= 0) by (nonlinear_arith)
                requires
                    b.price > 0,
                    c.fee_percent >= 0,
            ;
            let fee = fee_of(b.price as int, c.fee_percent as int);
            let sold = MarketState {
                fee_balance: if fee > 0 {
                    (s.fee_balance + fee) as i128
                } else {
                    s.fee_balance
                },
                ..s.with_book(book_id, Book { is_available: false, ..b })
            };
            assert(sold.user_of(b.owner) == s.user_of(b.owner));
            assert(s.user_of(b.owner).address@ == b.owner@);
            let sd = StatsDelta { sold: 1, earned: (b.price - fee) as i128, ..no_delta() };
            if sold.credit(b.owner, sd) is Some {
                let s1 = sold.credit(b.owner, sd).unwrap();
                if b.owner@ != buyer@ {
                    assert(s1.user_of(buyer) == s.user_of(buyer));
                }
            }
        }
    }
}

/// Listing is owed for every valid book: with a grade in 1..=12, a condition
/// in 1..=5 and, for a sale, a price above 0, listing succeeds unless the
/// book count or the owner's listing count is at its maximum, and the new book
/// gets the id that follows the number of books.  Otherwise it is refused.
pub proof fn law_listing_succeeds_when_valid(
    s: MarketState,
    owner: String,
    title: String,
    subject: String,
    grade: u32,
    condition: u32,
    price: i128,
)
    requires
        s.wf(),
    ensures
        s.list_for_sale(owner, title, subject, grade, condition, price) is Ok <==> (1 <= grade <= 12
            && 1 <= condition <= 5 && price > 0 && s.books.len() < u64::MAX
            && s.user_of(owner).books_listed < u64::MAX),
        s.list_for_exchange(owner, title, subject, grade, condition) is Ok <==> (1 <= grade <= 12
            && 1 <= condition <= 5 && s.books.len() < u64::MAX && s.user_of(owner).books_listed
            < u64::MAX),
        s.list_for_sale(owner, title, subject, grade, condition, price) is Ok ==> s.list_for_sale(
            owner,
            title,
            subject,
            grade,
            condition,
            price,
        ).unwrap().1 == s.books.len() + 1,
        s.list_for_exchange(owner, title, subject, grade, condition) is Ok ==> s.list_for_exchange(
            owner,
            title,
            subject,
            grade,
            condition,
        ).unwrap().1 == s.books.len() + 1,
{
}

/// A swap is owed to anyone but the owner of an available book listed for
/// exchange, whatever they did before, unless one of the two swap counts is at
/// its maximum; it is refused otherwise.  Only the swapped book changes, and
/// it only becomes unavailable.
pub proof fn law_exchange_succeeds_when_allowed(s: MarketState, requester: String, book_id: u64)
    requires
        s.wf(),
    ensures
        s.request_exchange(requester, book_id) is Ok <==> ({
            &&& 1 <= book_id <= s.books.len()
            &&& s.books[book_id - 1].listing_type == ListingType::Exchange
            &&& s.books[book_id - 1].is_available
            &&& s.books[book_id - 1].owner@ != requester@
            &&& s.user_of(s.books[book_id - 1].owner).exchanges_done < u64::MAX
            &&& s.user_of(requester).exchanges_done < u64::MAX
        }),
        s.request_exchange(requester, book_id) is Ok ==> ({
            let t = s.request_exchange(requester, book_id).unwrap();
            &&& t.books.len() == s.books.len()
            &&& !t.books[book_id - 1].is_available
            &&& t.books[book_id - 1].price == s.books[book_id - 1].price
            &&& t.books[book_id - 1].owner == s.books[book_id - 1].owner
            &&& forall|j: int|
                0 <= j < s.books.len() && j != book_id - 1 ==> #[trigger] t.books[j] == s.books[j]
            &&& t.config == s.config
            &&& t.fee_balance == s.fee_balance
        }),
{
    if 1 <= book_id <= s.books.len() {
        let b = s.book(book_id);
        let swapped = s.with_book(book_id, Book { is_available: false, ..b });
        let d = StatsDelta { exchanges: 1, ..no_delta() };
        assert(swapped.user_of(b.owner) == s.user_of(b.owner));
        if swapped.credit(b.owner, d) is Some && b.owner@ != requester@ {
            let s1 = swapped.credit(b.owner, d).unwrap();
            assert(s1.user_of(requester) == s.user_of(requester));
        }
    }
}

/// A price update is owed to the owner of an available book for sale for any
/// positive price, and refused otherwise; it changes that book's price to the
/// new price and nothing else.
pub proof fn law_price_update(s: MarketState, owner: String, book_id: u64, new_price: i128)
    requires
        s.wf(),
    ensures
        s.update_price(owner, book_id, new_price) is Ok <==> ({
            &&& 1 <= book_id <= s.books.len()
            &&& s.books[book_id - 1].owner@ == owner@
            &&& s.books[book_id - 1].listing_type == ListingType::Sale
            &&& s.books[book_id - 1].is_available
            &&& new_price > 0
        }),
        s.update_price(owner, book_id, new_price) is Ok ==> ({
            let t = s.update_price(owner, book_id, new_price).unwrap();
            let (b, nb) = (s.books[book_id - 1], t.books[book_id - 1]);
            &&& t.books.len() == s.books.len()
            &&& nb.price == new_price
            &&& nb.id == b.id && nb.title == b.title && nb.subject == b.subject
            &&& nb.grade == b.grade && nb.owner == b.owner && nb.condition == b.condition
            &&& nb.listing_type == b.listing_type && nb.is_available == b.is_available
            &&& forall|j: int|
                0 <= j < s.books.len() && j != book_id - 1 ==> #[trigger] t.books[j] == s.books[j]
            &&& t.users == s.users
            &&& t.config == s.config
            &&& t.fee_balance == s.fee_balance
        }),
{
}

/// Unlisting is owed to the owner of an available book, and refused otherwise;
/// it only takes that book off the market.
pub proof fn law_unlisting(s: MarketState, owner: String, book_id: u64)
    requires
        s.wf(),
    ensures
        s.unlist_book(owner, book_id) is Ok <==> (1 <= book_id <= s.books.len()
            && s.books[book_id - 1].owner@ == owner@ && s.books[book_id - 1].is_available),
        s.unlist_book(owner, book_id) is Ok ==> ({
            let t = s.unlist_book(owner, book_id).unwrap();
            &&& t.books.len() == s.books.len()
            &&& !t.books[book_id - 1].is_available
            &&& t.books[book_id - 1].price == s.books[book_id - 1].price
            &&& forall|j: int|
                0 <= j < s.books.len() && j != book_id - 1 ==> #[trigger] t.books[j] == s.books[j]
            &&& t.users == s.users
            &&& t.fee_balance == s.fee_balance
        }),
{
}

/// Initialization succeeds exactly on a marketplace not yet initialized with a
/// fee of at most 10 percent, and records what it was given.  Withdrawal
/// succeeds exactly on an initialized marketplace with fees collected.
pub proof fn law_initialize_and_withdraw_owed(
    s: MarketState,
    admin: String,
    token_contract: String,
    fee_percent: u32,
)
    requires
        s.wf(),
    ensures
        s.initialize(admin, token_contract, fee_percent) is Ok <==> (s.config is None && fee_percent
            <= 10),
        s.initialize(admin, token_contract, fee_percent) is Ok ==> ({
            let t = s.initialize(admin, token_contract, fee_percent).unwrap();
            &&& t.config.unwrap().admin == admin
            &&& t.config.unwrap().token_contract == token_contract
            &&& t.config.unwrap().fee_percent == fee_percent
            &&& t.fee_balance == 0
            &&& t.books == s.books
            &&& t.users == s.users
        }),
        s.withdraw_fees() is Ok <==> (s.config is Some && s.fee_balance > 0),
{
}

proof fn lemma_search_members(s: MarketState, f: BookFilter)
    ensures
        forall|i: int|
            0 <= i < s.search(f).len() ==> s.books.contains(#[trigger] s.search(f)[i]) && f.accepts(
                s.search(f)[i],
            ),
        forall|i: int|
            0 <= i < s.books.len() && f.accepts(s.books[i]) ==> s.search(f).contains(
                #[trigger] s.books[i],
            ),
{
    assert forall|i: int| 0 <= i < s.search(f).len() implies s.books.contains(
        #[trigger] s.search(f)[i],
    ) && f.accepts(s.search(f)[i]) by {
        s.books.lemma_filter_pred(f.pred(), i);
        s.books.lemma_filter_contains_rev(f.pred(), s.search(f)[i]);
    }
    assert forall|i: int| 0 <= i < s.books.len() && f.accepts(s.books[i]) implies s.search(
        f,
    ).contains(#[trigger] s.books[i]) by {
        s.books.lemma_filter_contains(f.pred(), i);
    }
}

proof fn lemma_filter_sorted(bs: Seq<Book>, p: spec_fn(Book) -> bool)
    requires
        forall|i: int, j: int| 0 <= i < j < bs.len() ==> bs[i].id < bs[j].id,
    ensures
        forall|i: int, j: int|
            0 <= i < j < bs.filter(p).len() ==> bs.filter(p)[i].id < bs.filter(p)[j].id,
    decreases bs.len(),
{
    reveal_with_fuel(Seq::<_>::filter, 1);
    if bs.len() > 0 {
        let init = bs.drop_last();
        lemma_filter_sorted(init, p);
        let f = init.filter(p);
        assert forall|k: int| 0 <= k < f.len() implies f[k].id < bs.last().id by {
            init.lemma_filter_contains_rev(p, f[k]);
            let m = choose|m: int| 0 <= m < init.len() && init[m] == f[k];
            assert(init[m] == bs[m]);
        }
    }
}

/// What a search returns: every book it returns is a stored, available book
/// that has the searched grade (or subject, or listing type); every stored
/// available book that has it is returned; and the books come in increasing
/// order of id.
pub proof fn law_search_is_exact(s: MarketState, grade: u32, subject: String)
    requires
        s.wf(),
    ensures
        forall|i: int|
            0 <= i < s.search(BookFilter::Grade(grade)).len() ==> {
                let b = #[trigger] s.search(BookFilter::Grade(grade))[i];
                b.is_available && b.grade == grade && s.books.contains(b)
            },
        forall|i: int|
            0 <= i < s.books.len() && s.books[i].is_available && s.books[i].grade == grade
                ==> s.search(BookFilter::Grade(grade)).contains(#[trigger] s.books[i]),
        forall|i: int|
            0 <= i < s.search(BookFilter::Subject(subject)).len() ==> {
                let b = #[trigger] s.search(BookFilter::Subject(subject))[i];
                b.is_available && b.subject@ == subject@ && s.books.contains(b)
            },
        forall|i: int|
            0 <= i < s.books.len() && s.books[i].is_available && s.books[i].subject@ == subject@
                ==> s.search(BookFilter::Subject(subject)).contains(#[trigger] s.books[i]),
        forall|i: int|
            0 <= i < s.search(BookFilter::ForSale).len() ==> {
                let b = #[trigger] s.search(BookFilter::ForSale)[i];
                b.is_available && b.listing_type == ListingType::Sale && s.books.contains(b)
            },
        forall|i: int|
            0 <= i < s.books.len() && s.books[i].is_available && s.books[i].listing_type
                == ListingType::Sale ==> s.search(BookFilter::ForSale).contains(#[trigger] s.books[i]),
        forall|i: int|
            0 <= i < s.search(BookFilter::ForExchange).len() ==> {
                let b = #[trigger] s.search(BookFilter::ForExchange)[i];
                b.is_available && b.listing_type == ListingType::Exchange && s.books.contains(b)
            },
        forall|i: int|
            0 <= i < s.books.len() && s.books[i].is_available && s.books[i].listing_type
                == ListingType::Exchange ==> s.search(BookFilter::ForExchange).contains(
                #[trigger] s.books[i],
            ),
        forall|f: BookFilter, i: int, j: int|
            0 <= i < j < s.search(f).len() ==> #[trigger] s.search(f)[i].id
                < #[trigger] s.search(f)[j].id,
{
    assert forall|i: int, j: int| 0 <= i < j < s.books.len() implies s.books[i].id < s.books[j].id by {
        assert(book_ok(s.books[i], i));
        assert(book_ok(s.books[j], j));
    }
    assert forall|f: BookFilter, i: int, j: int|
        0 <= i < j < s.search(f).len() implies #[trigger] s.search(f)[i].id
        < #[trigger] s.search(f)[j].id by {
        lemma_filter_sorted(s.books, f.pred());
    }
    lemma_search_members(s, BookFilter::Grade(grade));
    lemma_search_members(s, BookFilter::Subject(subject));
    lemma_search_members(s, BookFilter::ForSale);
    lemma_search_members(s, BookFilter::ForExchange);
}

/// Why a call is refused, in terms of its inputs: a missing book is reported
/// as such; a book of the wrong listing type, an unavailable book, one's own
/// book and a foreign book each have their own error; initializing twice, a
/// fee above 10 percent, a bad grade, condition or sale price, and withdrawing
/// without fees are refused with their errors.
pub proof fn law_refusal_reasons(s: MarketState, caller: String, book_id: u64, price: i128)
    requires
        s.wf(),
    ensures
        !(1 <= book_id <= s.books.len()) ==> {
            &&& s.get_book(book_id) == Err::<Book, MarketError>(MarketError::BookNotFound)
            &&& s.buy_book(caller, book_id) == Err::<(MarketState, PayoutView), MarketError>(
                MarketError::BookNotFound,
            )
            &&& s.request_exchange(caller, book_id) == Err::<MarketState, MarketError>(
                MarketError::BookNotFound,
            )
            &&& s.update_price(caller, book_id, price) == Err::<MarketState, MarketError>(
                MarketError::BookNotFound,
            )
            &&& s.unlist_book(caller, book_id) == Err::<MarketState, MarketError>(
                MarketError::BookNotFound,
            )
        },
        1 <= book_id <= s.books.len() ==> {
            let b = s.books[book_id - 1];
            &&& s.get_book(book_id) == Ok::<Book, MarketError>(b)
            &&& (b.listing_type == ListingType::Exchange ==> s.buy_book(caller, book_id) == Err::<
                (MarketState, PayoutView),
                MarketError,
            >(MarketError::NotForSale))
            &&& (b.listing_type == ListingType::Sale ==> s.request_exchange(caller, book_id) == Err::<
                MarketState,
                MarketError,
            >(MarketError::NotForExchange))
            &&& (!b.is_available ==> s.buy_book(caller, book_id) is Err
                && s.request_exchange(caller, book_id) is Err && s.unlist_book(caller, book_id)
                is Err && s.update_price(caller, book_id, price) is Err)
            &&& (!b.is_available && b.listing_type == ListingType::Sale ==> s.buy_book(caller, book_id)
                == Err::<(MarketState, PayoutView), MarketError>(MarketError::NotAvailable))
            &&& (!b.is_available && b.listing_type == ListingType::Exchange ==> s.request_exchange(
                caller,
                book_id,
            ) == Err::<MarketState, MarketError>(MarketError::NotAvailable))
            &&& (!b.is_available && b.owner@ == caller@ ==> s.unlist_book(caller, book_id) == Err::<
                MarketState,
                MarketError,
            >(MarketError::NotAvailable))
            &&& (b.is_available && b.owner@ == caller@ && b.listing_type == ListingType::Sale
                ==> s.buy_book(caller, book_id) == Err::<(MarketState, PayoutView), MarketError>(
                MarketError::OwnBook,
            ))
            &&& (b.is_available && b.owner@ == caller@ && b.listing_type == ListingType::Exchange
                ==> s.request_exchange(caller, book_id) == Err::<MarketState, MarketError>(
                MarketError::OwnBook,
            ))
            &&& (b.is_available && b.owner@ != caller@ && b.listing_type == ListingType::Sale
                && s.config is None ==> s.buy_book(caller, book_id) == Err::<
                (MarketState, PayoutView),
                MarketError,
            >(MarketError::NotInitialized))
            &&& (b.is_available && b.owner@ == caller@ && b.listing_type == ListingType::Sale
                && price <= 0 ==> s.update_price(caller, book_id, price) == Err::<
                MarketState,
                MarketError,
            >(MarketError::InvalidPrice))
            &&& (b.owner@ == caller@ && b.listing_type == ListingType::Exchange ==> s.update_price(
                caller,
                book_id,
                price,
            ) == Err::<MarketState, MarketError>(MarketError::NotForSale))
        },
        s.config is Some ==> s.initialize(caller, caller, 0) == Err::<MarketState, MarketError>(
            MarketError::AlreadyInitialized,
        ),
        s.config is None ==> s.initialize(caller, caller, 11) == Err::<MarketState, MarketError>(
            MarketError::FeeTooHigh,
        ),
        s.config is None ==> s.withdraw_fees() == Err::<(MarketState, PayoutView), MarketError>(
            MarketError::NotInitialized,
        ),
        s.config is Some && s.fee_balance == 0 ==> s.withdraw_fees() == Err::<
            (MarketState, PayoutView),
            MarketError,
        >(MarketError::NoFees),
{
}

/// Listing refusals, in terms of the inputs: a grade outside 1..=12 first,
/// then a condition outside 1..=5, then a sale price that is not positive.
pub proof fn law_listing_refusals(
    s: MarketState,
    owner: String,
    title: String,
    subject: String,
    grade: u32,
    condition: u32,
    price: i128,
)
    ensures
        !(1 <= grade <= 12) ==> s.list_for_sale(owner, title, subject, grade, condition, price)
            == Err::<(MarketState, u64), MarketError>(MarketError::InvalidGrade) && s.list_for_exchange(
            owner,
            title,
            subject,
            grade,
            condition,
        ) == Err::<(MarketState, u64), MarketError>(MarketError::InvalidGrade),
        1 <= grade <= 12 && !(1 <= condition <= 5) ==> s.list_for_sale(
            owner,
            title,
            subject,
            grade,
            condition,
            price,
        ) == Err::<(MarketState, u64), MarketError>(MarketError::InvalidCondition)
            && s.list_for_exchange(owner, title, subject, grade, condition) == Err::<
            (MarketState, u64),
            MarketError,
        >(MarketError::InvalidCondition),
        1 <= grade <= 12 && 1 <= condition <= 5 && price <= 0 ==> s.list_for_sale(
            owner,
            title,
            subject,
            grade,
            condition,
            price,
        ) == Err::<(MarketState, u64), MarketError>(MarketError::InvalidPrice),
{
}

} // verus!
