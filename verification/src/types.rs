use vstd::prelude::*;

verus! {

/// How a book is offered.
#[derive(Clone, Copy, Debug, PartialEq, Eq, Structural)]
pub enum ListingType {
    /// Offered for a peer-to-peer swap, at no token cost.
    Exchange,
    /// Offered for sale at a token price.
    Sale,
}

/// Why an operation was refused.  A refused operation changes nothing.
#[derive(Clone, Copy, Debug, PartialEq, Eq, Structural)]
pub enum MarketError {
    /// `initialize` was called on a marketplace that already has an administrator.
    AlreadyInitialized,
    /// The platform fee asked for is above 10 percent.
    FeeTooHigh,
    /// The grade is outside 1..=12.
    InvalidGrade,
    /// The condition is outside 1..=5.
    InvalidCondition,
    /// A sale price is zero or negative.
    InvalidPrice,
    /// No book has the given id.
    BookNotFound,
    /// The book is listed for exchange, not for sale.
    NotForSale,
    /// The book is listed for sale, not for exchange.
    NotForExchange,
    /// The book has been sold, swapped or unlisted.
    NotAvailable,
    /// A user tried to buy or swap a book of their own.
    OwnBook,
    /// The caller does not own the book.
    NotOwner,
    /// The marketplace has no administrator and token yet.
    NotInitialized,
    /// There is no collected fee to withdraw.
    NoFees,
    /// A counter, a balance or a fee computation would leave its integer range.
    Overflow,
}


/// A listed textbook.  Accounts are identified by their address in text form.
#[derive(Debug)]
pub struct Book {
    pub id: u64,
    pub title: String,
    /// The school subject, such as mathematics or physics.
    pub subject: String,
    /// The school grade, 1 to 12.
    pub grade: u32,
    pub owner: String,
    /// The physical condition, 1 to 5 (5 = like new).
    pub condition: u32,
    pub listing_type: ListingType,
    /// The token price; 0 for a book offered for exchange.
    pub price: i128,
    /// False once the book is sold, swapped or unlisted.
    pub is_available: bool,
}

impl Clone for Book {
    fn clone(&self) -> (r: Self)
        ensures
            r == *self,
    {
        Book {
            id: self.id,
            title: self.title.clone(),
            subject: self.subject.clone(),
            grade: self.grade,
            owner: self.owner.clone(),
            condition: self.condition,
            listing_type: self.listing_type,
            price: self.price,
            is_available: self.is_available,
        }
    }
}

/// The activity record of one account.
#[derive(Debug)]
pub struct User {
    pub address: String,
    pub books_listed: u64,
    pub exchanges_done: u64,
    pub books_sold: u64,
    pub books_bought: u64,
    /// Tokens received from sales, after the platform fee.
    pub total_earned: i128,
    /// Tokens paid for purchases.
    pub total_spent: i128,
}

impl Clone for User {
    fn clone(&self) -> (r: Self)
        ensures
            r == *self,
    {
        User {
            address: self.address.clone(),
            books_listed: self.books_listed,
            exchanges_done: self.exchanges_done,
            books_sold: self.books_sold,
            books_bought: self.books_bought,
            total_earned: self.total_earned,
            total_spent: self.total_spent,
        }
    }
}

impl User {
    /// The record of an account that has done nothing yet.
    pub open spec fn fresh(address: String) -> User {
        User {
            address,
            books_listed: 0,
            exchanges_done: 0,
            books_sold: 0,
            books_bought: 0,
            total_earned: 0,
            total_spent: 0,
        }
    }

    /// The record after adding `d` to each counter, or `None` when a counter
    /// would leave its integer range.
    pub open spec fn bumped(self, d: StatsDelta) -> Option<User> {
        if self.books_listed + d.listed > u64::MAX || self.exchanges_done + d.exchanges > u64::MAX
            || self.books_sold + d.sold > u64::MAX || self.books_bought + d.bought > u64::MAX
            || self.total_earned + d.earned > i128::MAX || self.total_earned + d.earned < i128::MIN
            || self.total_spent + d.spent > i128::MAX || self.total_spent + d.spent < i128::MIN {
            None
        } else {
            Some(
                User {
                    address: self.address,
                    books_listed: (self.books_listed + d.listed) as u64,
                    exchanges_done: (self.exchanges_done + d.exchanges) as u64,
                    books_sold: (self.books_sold + d.sold) as u64,
                    books_bought: (self.books_bought + d.bought) as u64,
                    total_earned: (self.total_earned + d.earned) as i128,
                    total_spent: (self.total_spent + d.spent) as i128,
                },
            )
        }
    }
}

/// Amounts to add to an account's activity record.
#[derive(Clone, Copy, Debug)]
pub struct StatsDelta {
    pub listed: u64,
    pub exchanges: u64,
    pub sold: u64,
    pub bought: u64,
    pub earned: i128,
    pub spent: i128,
}

/// What `initialize` fixes: the administrator, the token used for payments and
/// the platform fee in percent.
#[derive(Debug)]
pub struct Config {
    pub admin: String,
    pub token_contract: String,
    pub fee_percent: u32,
}

impl Clone for Config {
    fn clone(&self) -> (r: Self)
        ensures
            r == *self,
    {
        Config {
            admin: self.admin.clone(),
            token_contract: self.token_contract.clone(),
            fee_percent: self.fee_percent,
        }
    }
}

/// One side of a token transfer.
#[derive(Debug)]
pub enum Party {
    /// The marketplace contract itself, which holds the collected fees.
    Contract,
    /// An account, by its address.
    Account(String),
}

/// A token transfer that an operation owes.
#[derive(Debug)]
pub struct Transfer {
    pub from: Party,
    pub to: Party,
    pub amount: i128,
}

/// The token transfers that a successful operation owes, in order, all in the
/// marketplace's payment token.
#[derive(Debug)]
pub struct Payout {
    pub token_contract: String,
    pub transfers: Vec<Transfer>,
}

/// The value of a [`Payout`] in contracts.
pub struct PayoutView {
    pub token_contract: String,
    pub transfers: Seq<Transfer>,
}

impl View for Payout {
    type V = PayoutView;

    open spec fn view(&self) -> PayoutView {
        PayoutView { token_contract: self.token_contract, transfers: self.transfers@ }
    }
}

/// The sum of the amounts of a sequence of transfers.
pub open spec fn total_amount(ts: Seq<Transfer>) -> int
    decreases ts.len(),
{
    if ts.len() == 0 {
        0
    } else {
        total_amount(ts.drop_last()) + ts.last().amount
    }
}

/// The sum of the amounts of the transfers that pay the contract.
pub open spec fn paid_to_contract(ts: Seq<Transfer>) -> int
    decreases ts.len(),
{
    if ts.len() == 0 {
        0
    } else {
        paid_to_contract(ts.drop_last()) + (if ts.last().to is Contract {
            ts.last().amount as int
        } else {
            0
        })
    }
}

/// Which available books a search returns.
#[derive(Debug)]
pub enum BookFilter {
    /// Books of one grade.
    Grade(u32),
    /// Books of one subject.
    Subject(String),
    /// Books listed for sale.
    ForSale,
    /// Books listed for exchange.
    ForExchange,
}

impl BookFilter {
    /// A search returns only available books, and of those the ones that match.
    pub open spec fn accepts(&self, b: Book) -> bool {
        &&& b.is_available
        &&& match self {
            BookFilter::Grade(g) => b.grade == *g,
            BookFilter::Subject(s) => b.subject@ == s@,
            BookFilter::ForSale => b.listing_type == ListingType::Sale,
            BookFilter::ForExchange => b.listing_type == ListingType::Exchange,
        }
    }

    pub open spec fn pred(self) -> spec_fn(Book) -> bool {
        |b: Book| self.accepts(b)
    }

    /// Whether the filter accepts `b`.
    pub fn matches(&self, b: &Book) -> (r: bool)
        ensures
            r == self.accepts(*b),
    {
        let hit = match self {
            BookFilter::Grade(g) => b.grade == *g,
            BookFilter::Subject(s) => b.subject == *s,
            BookFilter::ForSale => b.listing_type == ListingType::Sale,
            BookFilter::ForExchange => b.listing_type == ListingType::Exchange,
        };
        hit && b.is_available
    }
}

/// The platform fee on a sale at `price` with a fee of `fee_percent` percent,
/// rounded down.
pub open spec fn fee_of(price: int, fee_percent: int) -> int {
    (price * fee_percent) / 100
}

} // verus!
