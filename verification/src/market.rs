use vstd::prelude::*;
use crate::types::{
    fee_of, Book, BookFilter, Config, ListingType, MarketError, Party, Payout, PayoutView,
    StatsDelta, Transfer, User,
};

verus! {

/// The contents of the marketplace: what the contract holds in its storage.
pub struct MarketState {
    /// Set once by `initialize`.
    pub config: Option<Config>,
    /// Platform fees collected and not yet withdrawn.
    pub fee_balance: i128,
    /// Every book ever listed, in order of listing: the book with id `n` is at
    /// position `n - 1`.  Books are never removed; a sold, swapped or unlisted
    /// book stays, marked unavailable.
    pub books: Seq<Book>,
    /// Activity records, by the account's address.
    pub users: Map<Seq<char>, User>,
}

/// The facts that every stored book satisfies, `i` being its position.
pub open spec fn book_ok(b: Book, i: int) -> bool {
    &&& b.id == i + 1
    &&& 1 <= b.grade <= 12
    &&& 1 <= b.condition <= 5
    &&& b.listing_type == ListingType::Sale ==> b.price > 0
    &&& b.listing_type == ListingType::Exchange ==> b.price == 0
}

/// No change to any activity record.
pub open spec fn no_delta() -> StatsDelta {
    StatsDelta { listed: 0, exchanges: 0, sold: 0, bought: 0, earned: 0, spent: 0 }
}

/// The transfers that a sale owes: the seller's share from the buyer to the
/// seller, then, when it is not zero, the fee from the buyer to the contract.
pub open spec fn sale_transfers(buyer: String, seller: String, seller_amount: int, fee: int) -> Seq<
    Transfer,
> {
    let to_seller = seq![
        Transfer {
            from: Party::Account(buyer),
            to: Party::Account(seller),
            amount: seller_amount as i128,
        },
    ];
    if fee > 0 {
        to_seller.push(Transfer { from: Party::Account(buyer), to: Party::Contract, amount: fee as i128 })
    } else {
        to_seller
    }
}

impl MarketState {
    /// The invariant of the marketplace.
    pub open spec fn wf(self) -> bool {
        &&& self.fee_balance >= 0
        &&& (self.config matches Some(c) ==> c.fee_percent <= 10)
        &&& self.books.len() <= u64::MAX
        &&& forall|i: int| 0 <= i < self.books.len() ==> #[trigger] book_ok(self.books[i], i)
        &&& forall|k: Seq<char>| #[trigger]
            self.users.contains_key(k) ==> self.users[k].address@ == k
    }

    pub open spec fn total_books(self) -> u64 {
        self.books.len() as u64
    }

    pub open spec fn has_book(self, id: u64) -> bool {
        1 <= id <= self.books.len()
    }

    pub open spec fn book(self, id: u64) -> Book {
        self.books[id - 1]
    }

    /// What `get_book` answers.
    pub open spec fn get_book(self, id: u64) -> Result<Book, MarketError> {
        if self.has_book(id) {
            Ok(self.book(id))
        } else {
            Err(MarketError::BookNotFound)
        }
    }

    /// The activity record of an account; a fresh one if it has none yet.
    pub open spec fn user_of(self, address: String) -> User {
        if self.users.contains_key(address@) {
            self.users[address@]
        } else {
            User::fresh(address)
        }
    }

    /// What `get_token_contract` answers.
    pub open spec fn token_contract(self) -> Result<String, MarketError> {
        match self.config {
            Some(c) => Ok(c.token_contract),
            None => Err(MarketError::NotInitialized),
        }
    }

    /// The books that a search with `f` returns, in order of id.
    pub open spec fn search(self, f: BookFilter) -> Seq<Book> {
        self.books.filter(f.pred())
    }

    pub open spec fn with_user(self, u: User) -> MarketState {
        MarketState { users: self.users.insert(u.address@, u), ..self }
    }

    pub open spec fn with_book(self, id: u64, b: Book) -> MarketState {
        MarketState { books: self.books.update(id - 1, b), ..self }
    }

    /// The state after adding `d` to the record of `address`, or `None` when a
    /// counter would leave its range.
    pub open spec fn credit(self, address: String, d: StatsDelta) -> Option<MarketState> {
        match self.user_of(address).bumped(d) {
            Some(u) => Some(self.with_user(u)),
            None => None,
        }
    }

    /// `initialize`: the first call fixes the administrator, the payment token
    /// and a fee of at most 10 percent, and sets the collected fees to 0.
    pub open spec fn initialize(self, admin: String, token_contract: String, fee_percent: u32) -> Result<
        MarketState,
        MarketError,
    > {
        if self.config is Some {
            Err(MarketError::AlreadyInitialized)
        } else if fee_percent > 10 {
            Err(MarketError::FeeTooHigh)
        } else {
            Ok(
                MarketState {
                    config: Some(Config { admin, token_contract, fee_percent }),
                    fee_balance: 0,
                    ..self
                },
            )
        }
    }

    /// Listing a book: it gets the next id and is available; the owner's
    /// listing count goes up by one.
    pub open spec fn list(
        self,
        owner: String,
        title: String,
        subject: String,
        grade: u32,
        condition: u32,
        listing_type: ListingType,
        price: i128,
    ) -> Result<(MarketState, u64), MarketError> {
        if !(1 <= grade <= 12) {
            Err(MarketError::InvalidGrade)
        } else if !(1 <= condition <= 5) {
            Err(MarketError::InvalidCondition)
        } else if listing_type == ListingType::Sale && price <= 0 {
            Err(MarketError::InvalidPrice)
        } else if self.books.len() >= u64::MAX {
            Err(MarketError::Overflow)
        } else {
            let id = (self.books.len() + 1) as u64;
            let book = Book {
                id,
                title,
                subject,
                grade,
                owner,
                condition,
                listing_type,
                price,
                is_available: true,
            };
            let listed = MarketState { books: self.books.push(book), ..self };
            match listed.credit(owner, StatsDelta { listed: 1, ..no_delta() }) {
                Some(s) => Ok((s, id)),
                None => Err(MarketError::Overflow),
            }
        }
    }

    pub open spec fn list_for_exchange(
        self,
        owner: String,
        title: String,
        subject: String,
        grade: u32,
        condition: u32,
    ) -> Result<(MarketState, u64), MarketError> {
        self.list(owner, title, subject, grade, condition, ListingType::Exchange, 0)
    }

    pub open spec fn list_for_sale(
        self,
        owner: String,
        title: String,
        subject: String,
        grade: u32,
        condition: u32,
        price: i128,
    ) -> Result<(MarketState, u64), MarketError> {
        self.list(owner, title, subject, grade, condition, ListingType::Sale, price)
    }

    /// Buying a book listed for sale: the buyer pays the price, of which the
    /// fee goes to the contract and the rest to the seller; the book becomes
    /// unavailable and both accounts' records are updated.
    pub open spec fn buy_book(self, buyer: String, book_id: u64) -> Result<
        (MarketState, PayoutView),
        MarketError,
    > {
        if !self.has_book(book_id) {
            Err(MarketError::BookNotFound)
        } else {
            let b = self.book(book_id);
            if b.listing_type != ListingType::Sale {
                Err(MarketError::NotForSale)
            } else if !b.is_available {
                Err(MarketError::NotAvailable)
            } else if b.owner@ == buyer@ {
                Err(MarketError::OwnBook)
            } else {
                match self.config {
                    None => Err(MarketError::NotInitialized),
                    Some(c) => {
                        let product = b.price * c.fee_percent;
                        if product > i128::MAX || product < i128::MIN {
                            Err(MarketError::Overflow)
                        } else {
                            let fee = fee_of(b.price as int, c.fee_percent as int);
                            let seller_amount = b.price - fee;
                            if fee > 0 && self.fee_balance + fee > i128::MAX {
                                Err(MarketError::Overflow)
                            } else {
                                let sold = MarketState {
                                    fee_balance: if fee > 0 {
                                        (self.fee_balance + fee) as i128
                                    } else {
                                        self.fee_balance
                                    },
                                    ..self.with_book(book_id, Book { is_available: false, ..b })
                                };
                                let seller_delta = StatsDelta {
                                    sold: 1,
                                    earned: seller_amount as i128,
                                    ..no_delta()
                                };
                                let buyer_delta = StatsDelta { bought: 1, spent: b.price, ..no_delta() };
                                match sold.credit(b.owner, seller_delta) {
                                    None => Err(MarketError::Overflow),
                                    Some(s1) => match s1.credit(buyer, buyer_delta) {
                                        None => Err(MarketError::Overflow),
                                        Some(s2) => Ok(
                                            (
                                                s2,
                                                PayoutView {
                                                    token_contract: c.token_contract,
                                                    transfers: sale_transfers(
                                                        buyer,
                                                        b.owner,
                                                        seller_amount,
                                                        fee,
                                                    ),
                                                },
                                            ),
                                        ),
                                    },
                                }
                            }
                        }
                    },
                }
            }
        }
    }

    /// Requesting a swap of a book listed for exchange: the book becomes
    /// unavailable and both accounts' swap counts go up by one.
    pub open spec fn request_exchange(self, requester: String, book_id: u64) -> Result<
        MarketState,
        MarketError,
    > {
        if !self.has_book(book_id) {
            Err(MarketError::BookNotFound)
        } else {
            let b = self.book(book_id);
            if b.listing_type != ListingType::Exchange {
                Err(MarketError::NotForExchange)
            } else if !b.is_available {
                Err(MarketError::NotAvailable)
            } else if b.owner@ == requester@ {
                Err(MarketError::OwnBook)
            } else {
                let swapped = self.with_book(book_id, Book { is_available: false, ..b });
                let d = StatsDelta { exchanges: 1, ..no_delta() };
                match swapped.credit(b.owner, d) {
                    None => Err(MarketError::Overflow),
                    Some(s1) => match s1.credit(requester, d) {
                        None => Err(MarketError::Overflow),
                        Some(s2) => Ok(s2),
                    },
                }
            }
        }
    }

    /// The owner of an available book for sale sets a new positive price.
    pub open spec fn update_price(self, owner: String, book_id: u64, new_price: i128) -> Result<
        MarketState,
        MarketError,
    > {
        if !self.has_book(book_id) {
            Err(MarketError::BookNotFound)
        } else {
            let b = self.book(book_id);
            if b.owner@ != owner@ {
                Err(MarketError::NotOwner)
            } else if b.listing_type != ListingType::Sale {
                Err(MarketError::NotForSale)
            } else if !b.is_available {
                Err(MarketError::NotAvailable)
            } else if new_price <= 0 {
                Err(MarketError::InvalidPrice)
            } else {
                Ok(self.with_book(book_id, Book { price: new_price, ..b }))
            }
        }
    }

    /// The owner of an available book withdraws it from the market.
    pub open spec fn unlist_book(self, owner: String, book_id: u64) -> Result<
        MarketState,
        MarketError,
    > {
        if !self.has_book(book_id) {
            Err(MarketError::BookNotFound)
        } else {
            let b = self.book(book_id);
            if b.owner@ != owner@ {
                Err(MarketError::NotOwner)
            } else if !b.is_available {
                Err(MarketError::NotAvailable)
            } else {
                Ok(self.with_book(book_id, Book { is_available: false, ..b }))
            }
        }
    }

    /// The collected fees go from the contract to the administrator, and the
    /// balance becomes 0.
    pub open spec fn withdraw_fees(self) -> Result<(MarketState, PayoutView), MarketError> {
        match self.config {
            None => Err(MarketError::NotInitialized),
            Some(c) => if self.fee_balance == 0 {
                Err(MarketError::NoFees)
            } else {
                Ok(
                    (
                        MarketState { fee_balance: 0, ..self },
                        PayoutView {
                            token_contract: c.token_contract,
                            transfers: seq![
                                Transfer {
                                    from: Party::Contract,
                                    to: Party::Account(c.admin),
                                    amount: self.fee_balance,
                                },
                            ],
                        },
                    ),
                )
            },
        }
    }
}

/// The activity records held in a sequence, by address; a later record for an
/// address replaces an earlier one.
pub open spec fn users_map(users: Seq<User>) -> Map<Seq<char>, User>
    decreases users.len(),
{
    if users.len() == 0 {
        Map::empty()
    } else {
        users_map(users.drop_last()).insert(users.last().address@, users.last())
    }
}

pub open spec fn distinct_addresses(users: Seq<User>) -> bool {
    forall|i: int, j: int|
        0 <= i < users.len() && 0 <= j < users.len() && i != j ==> #[trigger] users[i].address@
            != #[trigger] users[j].address@
}

proof fn lemma_users_map(users: Seq<User>)
    requires
        distinct_addresses(users),
    ensures
        forall|i: int|
            0 <= i < users.len() ==> users_map(users).contains_key(#[trigger] users[i].address@)
                && users_map(users)[users[i].address@] == users[i],
        forall|k: Seq<char>| #[trigger]
            users_map(users).contains_key(k) ==> exists|i: int|
                0 <= i < users.len() && (#[trigger] users[i]).address@ == k,
        forall|k: Seq<char>| #[trigger]
            users_map(users).contains_key(k) ==> users_map(users)[k].address@ == k,
    decreases users.len(),
{
    if users.len() > 0 {
        let init = users.drop_last();
        assert forall|i: int, j: int|
            0 <= i < init.len() && 0 <= j < init.len() && i != j implies #[trigger] init[i].address@
            != #[trigger] init[j].address@ by {
            assert(init[i] == users[i] && init[j] == users[j]);
        }
        lemma_users_map(init);
        assert forall|i: int| 0 <= i < users.len() implies users_map(users).contains_key(
            #[trigger] users[i].address@,
        ) && users_map(users)[users[i].address@] == users[i] by {
            if i < users.len() - 1 {
                assert(init[i] == users[i]);
                assert(users[i].address@ != users[users.len() - 1].address@);
            }
        }
        assert forall|k: Seq<char>| #[trigger]
            users_map(users).contains_key(k) implies exists|i: int|
            0 <= i < users.len() && (#[trigger] users[i]).address@ == k by {
            if k != users.last().address@ {
                assert(users_map(init).contains_key(k));
                let i = choose|i: int| 0 <= i < init.len() && (#[trigger] init[i]).address@ == k;
                assert(init[i] == users[i]);
            } else {
                assert(users[users.len() - 1].address@ == k);
            }
        }
    }
}

proof fn lemma_users_map_push(users: Seq<User>, u: User)
    requires
        distinct_addresses(users),
        forall|i: int| 0 <= i < users.len() ==> #[trigger] users[i].address@ != u.address@,
    ensures
        users_map(users.push(u)) == users_map(users).insert(u.address@, u),
        distinct_addresses(users.push(u)),
{
    assert(users.push(u).drop_last() =~= users);
    let p = users.push(u);
    assert forall|i: int, j: int|
        0 <= i < p.len() && 0 <= j < p.len() && i != j implies #[trigger] p[i].address@
        != #[trigger] p[j].address@ by {
        if i < users.len() && j < users.len() {
            assert(p[i] == users[i] && p[j] == users[j]);
        } else if i < users.len() {
            assert(p[i] == users[i]);
        } else {
            assert(p[j] == users[j]);
        }
    }
}

proof fn lemma_users_map_update(users: Seq<User>, i: int, u: User)
    requires
        distinct_addresses(users),
        0 <= i < users.len(),
        users[i].address@ == u.address@,
    ensures
        users_map(users.update(i, u)) == users_map(users).insert(u.address@, u),
        distinct_addresses(users.update(i, u)),
    decreases users.len(),
{
    let p = users.update(i, u);
    assert forall|a: int, b: int|
        0 <= a < p.len() && 0 <= b < p.len() && a != b implies #[trigger] p[a].address@
        != #[trigger] p[b].address@ by {
        assert(p[a].address@ == users[a].address@);
        assert(p[b].address@ == users[b].address@);
    }
    let init = users.drop_last();
    if i == users.len() - 1 {
        assert(p.drop_last() =~= init);
        assert(users_map(p) =~= users_map(users).insert(u.address@, u));
    } else {
        assert(p.drop_last() =~= init.update(i, u));
        assert forall|a: int, b: int|
            0 <= a < init.len() && 0 <= b < init.len() && a != b implies #[trigger] init[a].address@
            != #[trigger] init[b].address@ by {
            assert(init[a] == users[a] && init[b] == users[b]);
        }
        lemma_users_map_update(init, i, u);
        assert(users.last().address@ != u.address@) by {
            assert(users[users.len() - 1].address@ != users[i].address@);
        }
        assert(p.last() == users.last());
        assert(users_map(p) =~= users_map(users).insert(u.address@, u));
    }
}

/// The marketplace contract: its storage and the operations on it.
pub struct TextbookExchange {
    config: Option<Config>,
    fee_balance: i128,
    books: Vec<Book>,
    users: Vec<User>,
}

impl View for TextbookExchange {
    type V = MarketState;

    closed spec fn view(&self) -> MarketState {
        MarketState {
            config: self.config,
            fee_balance: self.fee_balance,
            books: self.books@,
            users: users_map(self.users@),
        }
    }
}

impl TextbookExchange {
    /// The invariant: that of the marketplace, and one record per address.
    pub closed spec fn wf(&self) -> bool {
        &&& self@.wf()
        &&& distinct_addresses(self.users@)
    }

    /// The contents of a well-formed marketplace satisfy the marketplace
    /// invariant, so the laws about `MarketState` apply to it.
    pub proof fn lemma_view_wf(&self)
        requires
            self.wf(),
        ensures
            self@.wf(),
    {
    }

    /// A marketplace with nothing in it, before `initialize`.
    pub fn new() -> (r: Self)
        ensures
            r.wf(),
            r@.config is None,
            r@.fee_balance == 0,
            r@.books.len() == 0,
            r@.users == Map::<Seq<char>, User>::empty(),
    {
        let r = TextbookExchange { config: None, fee_balance: 0, books: Vec::new(), users: Vec::new() };
        proof {
        }
        r
    }

    /// Accepts a grade in 1..=12 and a condition in 1..=5; the grade is checked first.
    pub fn validate_grade_condition(grade: u32, condition: u32) -> (r: Result<(), MarketError>)
        ensures
            r == (if !(1 <= grade <= 12) {
                Err(MarketError::InvalidGrade)
            } else if !(1 <= condition <= 5) {
                Err(MarketError::InvalidCondition)
            } else {
                Ok(())
            }),
    {
        if grade < 1 || grade > 12 {
            return Err(MarketError::InvalidGrade);
        }
        if condition < 1 || condition > 5 {
            return Err(MarketError::InvalidCondition);
        }
        Ok(())
    }

    /// The position of the record of `address`, if there is one.
    fn find_user(&self, address: &String) -> (r: Option<usize>)
        requires
            self.wf(),
        ensures
            match r {
                Some(i) => i < self.users@.len() && self.users@[i as int].address@ == address@,
                None => forall|i: int|
                    0 <= i < self.users@.len() ==> (#[trigger] self.users@[i]).address@ != address@,
            },
    {
        let n = self.users.len();
        let mut i: usize = 0;
        while i < n
            invariant
                n == self.users@.len(),
                i <= n,
                forall|j: int| 0 <= j < i ==> (#[trigger] self.users@[j]).address@ != address@,
            decreases n - i,
        {
            if self.users[i].address == *address {
                return Some(i);
            }
            i = i + 1;
        }
        None
    }

    /// The activity record of `address`; a fresh one if the account has done nothing yet.
    pub fn get_user(&self, address: String) -> (r: User)
        requires
            self.wf(),
        ensures
            r == self@.user_of(address),
    {
        proof {
            lemma_users_map(self.users@);
        }
        match self.find_user(&address) {
            Some(i) => self.users[i].clone(),
            None => {
                User {
                    address,
                    books_listed: 0,
                    exchanges_done: 0,
                    books_sold: 0,
                    books_bought: 0,
                    total_earned: 0,
                    total_spent: 0,
                }
            },
        }
    }

    /// The record of `address` after adding `d`, or `None` on overflow.
    fn bumped_user(&self, address: &String, d: StatsDelta) -> (r: Option<User>)
        requires
            self.wf(),
        ensures
            r == self@.user_of(*address).bumped(d),
    {
        let u = self.get_user(address.clone());
        let listed = match u.books_listed.checked_add(d.listed) {
            Some(v) => v,
            None => return None,
        };
        let exchanges = match u.exchanges_done.checked_add(d.exchanges) {
            Some(v) => v,
            None => return None,
        };
        let sold = match u.books_sold.checked_add(d.sold) {
            Some(v) => v,
            None => return None,
        };
        let bought = match u.books_bought.checked_add(d.bought) {
            Some(v) => v,
            None => return None,
        };
        let earned = match u.total_earned.checked_add(d.earned) {
            Some(v) => v,
            None => return None,
        };
        let spent = match u.total_spent.checked_add(d.spent) {
            Some(v) => v,
            None => return None,
        };
        Some(
            User {
                address: u.address,
                books_listed: listed,
                exchanges_done: exchanges,
                books_sold: sold,
                books_bought: bought,
                total_earned: earned,
                total_spent: spent,
            },
        )
    }

    /// Stores a record in place of the one for the same address, or adds it.
    fn store_user(&mut self, u: User)
        requires
            old(self).wf(),
        ensures
            final(self).wf(),
            final(self)@ == old(self)@.with_user(u),
    {
        proof {
            lemma_users_map(self.users@);
        }
        match self.find_user(&u.address) {
            Some(i) => {
                proof {
                    lemma_users_map_update(self.users@, i as int, u);
                }
                self.users.set(i, u);
            },
            None => {
                proof {
                    lemma_users_map_push(self.users@, u);
                }
                self.users.push(u);
            },
        }
        proof {
            lemma_users_map(self.users@);
        }
    }

    /// The number of books ever listed; the last listed book has this id.
    pub fn total_books(&self) -> (r: u64)
        requires
            self.wf(),
        ensures
            r == self@.total_books(),
            r == self@.books.len(),
    {
        self.books.len() as u64
    }

    /// The platform fees collected and not yet withdrawn.
    pub fn get_fee_balance(&self) -> (r: i128)
        ensures
            r == self@.fee_balance,
    {
        self.fee_balance
    }

    /// The payment token, once the marketplace is initialized.
    pub fn get_token_contract(&self) -> (r: Result<String, MarketError>)
        ensures
            r == self@.token_contract(),
    {
        match &self.config {
            Some(c) => Ok(c.token_contract.clone()),
            None => Err(MarketError::NotInitialized),
        }
    }

    /// The administrator, once the marketplace is initialized.
    pub fn get_admin(&self) -> (r: Option<String>)
        ensures
            match self@.config {
                Some(c) => r == Some(c.admin),
                None => r is None,
            },
    {
        match &self.config {
            Some(c) => Some(c.admin.clone()),
            None => None,
        }
    }

    /// The book with the given id.
    pub fn get_book(&self, book_id: u64) -> (r: Result<Book, MarketError>)
        requires
            self.wf(),
        ensures
            r == self@.get_book(book_id),
    {
        if book_id >= 1 && book_id <= self.books.len() as u64 {
            Ok(self.books[(book_id - 1) as usize].clone())
        } else {
            Err(MarketError::BookNotFound)
        }
    }

    /// The id that the next listed book gets.
    fn next_book_id(&self) -> (r: Result<u64, MarketError>)
        requires
            self.wf(),
        ensures
            r == (if self@.books.len() >= u64::MAX {
                Err(MarketError::Overflow)
            } else {
                Ok((self@.books.len() + 1) as u64)
            }),
    {
        let count = self.books.len() as u64;
        if count == u64::MAX {
            Err(MarketError::Overflow)
        } else {
            Ok(count + 1)
        }
    }

    fn list(
        &mut self,
        owner: String,
        title: String,
        subject: String,
        grade: u32,
        condition: u32,
        listing_type: ListingType,
        price: i128,
    ) -> (r: Result<u64, MarketError>)
        requires
            old(self).wf(),
            listing_type == ListingType::Exchange ==> price == 0,
        ensures
            final(self).wf(),
            match r {
                Ok(id) => old(self)@.list(
                    owner,
                    title,
                    subject,
                    grade,
                    condition,
                    listing_type,
                    price,
                ) == Ok::<(MarketState, u64), MarketError>((final(self)@, id)),
                Err(e) => old(self)@.list(owner, title, subject, grade, condition, listing_type, price)
                    == Err::<(MarketState, u64), MarketError>(e) && final(self)@ == old(self)@,
            },
    {
        match Self::validate_grade_condition(grade, condition) {
            Ok(()) => {},
            Err(e) => return Err(e),
        }
        if listing_type == ListingType::Sale && price <= 0 {
            return Err(MarketError::InvalidPrice);
        }
        let id = match self.next_book_id() {
            Ok(id) => id,
            Err(e) => return Err(e),
        };
        let d = StatsDelta { listed: 1, exchanges: 0, sold: 0, bought: 0, earned: 0, spent: 0 };
        let record = match self.bumped_user(&owner, d) {
            Some(u) => u,
            None => return Err(MarketError::Overflow),
        };
        let book = Book {
            id,
            title,
            subject,
            grade,
            owner,
            condition,
            listing_type,
            price,
            is_available: true,
        };
        self.books.push(book);
        self.store_user(record);
        Ok(id)
    }

    /// Lists a book for a swap, at no token cost; returns its id.
    pub fn list_for_exchange(
        &mut self,
        owner: String,
        title: String,
        subject: String,
        grade: u32,
        condition: u32,
    ) -> (r: Result<u64, MarketError>)
        requires
            old(self).wf(),
        ensures
            final(self).wf(),
            match r {
                Ok(id) => old(self)@.list_for_exchange(owner, title, subject, grade, condition)
                    == Ok::<(MarketState, u64), MarketError>((final(self)@, id)),
                Err(e) => old(self)@.list_for_exchange(owner, title, subject, grade, condition)
                    == Err::<(MarketState, u64), MarketError>(e) && final(self)@ == old(self)@,
            },
    {
        self.list(owner, title, subject, grade, condition, ListingType::Exchange, 0)
    }

    /// Lists a book for sale at a positive token price; returns its id.
    pub fn list_for_sale(
        &mut self,
        owner: String,
        title: String,
        subject: String,
        grade: u32,
        condition: u32,
        price: i128,
    ) -> (r: Result<u64, MarketError>)
        requires
            old(self).wf(),
        ensures
            final(self).wf(),
            match r {
                Ok(id) => old(self)@.list_for_sale(owner, title, subject, grade, condition, price)
                    == Ok::<(MarketState, u64), MarketError>((final(self)@, id)),
                Err(e) => old(self)@.list_for_sale(owner, title, subject, grade, condition, price)
                    == Err::<(MarketState, u64), MarketError>(e) && final(self)@ == old(self)@,
            },
    {
        self.list(owner, title, subject, grade, condition, ListingType::Sale, price)
    }

    /// Fixes the administrator, the payment token and the platform fee (at most
    /// 10 percent).  Only the first call succeeds.
    pub fn initialize(&mut self, admin: String, token_contract: String, fee_percent: u32) -> (r:
        Result<(), MarketError>)
        requires
            old(self).wf(),
        ensures
            final(self).wf(),
            match r {
                Ok(()) => old(self)@.initialize(admin, token_contract, fee_percent) == Ok::<
                    MarketState,
                    MarketError,
                >(final(self)@),
                Err(e) => old(self)@.initialize(admin, token_contract, fee_percent) == Err::<
                    MarketState,
                    MarketError,
                >(e) && final(self)@ == old(self)@,
            },
    {
        if self.config.is_some() {
            return Err(MarketError::AlreadyInitialized);
        }
        if fee_percent > 10 {
            return Err(MarketError::FeeTooHigh);
        }
        self.config = Some(Config { admin, token_contract, fee_percent });
        self.fee_balance = 0;
        Ok(())
    }

    /// Buys a book listed for sale.  Returns the transfers that the buyer owes:
    /// the price less the fee to the seller, then the fee (if not zero) to the
    /// contract.
    pub fn buy_book(&mut self, buyer: String, book_id: u64) -> (r: Result<Payout, MarketError>)
        requires
            old(self).wf(),
        ensures
            final(self).wf(),
            match r {
                Ok(p) => old(self)@.buy_book(buyer, book_id) == Ok::<
                    (MarketState, PayoutView),
                    MarketError,
                >((final(self)@, p@)),
                Err(e) => old(self)@.buy_book(buyer, book_id) == Err::<
                    (MarketState, PayoutView),
                    MarketError,
                >(e) && final(self)@ == old(self)@,
            },
    {
        if book_id < 1 || book_id > self.books.len() as u64 {
            return Err(MarketError::BookNotFound);
        }
        let idx = (book_id - 1) as usize;
        let b = self.books[idx].clone();
        assert(book_ok(self@.books[idx as int], idx as int));
        if b.listing_type != ListingType::Sale {
            return Err(MarketError::NotForSale);
        }
        if !b.is_available {
            return Err(MarketError::NotAvailable);
        }
        if b.owner == buyer {
            return Err(MarketError::OwnBook);
        }
        let (token_contract, fee_percent) = match &self.config {
            None => return Err(MarketError::NotInitialized),
            Some(c) => (c.token_contract.clone(), c.fee_percent),
        };
        let price = b.price;
        let product = match price.checked_mul(fee_percent as i128) {
            Some(v) => v,
            None => return Err(MarketError::Overflow),
        };
        assert(product >= 0 && product / 100 <= price) by (nonlinear_arith)
            requires
                product == price * fee_percent,
                price > 0,
                0 <= fee_percent <= 10,
        ;
        let fee = product / 100;
        let seller_amount = price - fee;
        let new_balance = if fee > 0 {
            match self.fee_balance.checked_add(fee) {
                Some(v) => v,
                None => return Err(MarketError::Overflow),
            }
        } else {
            self.fee_balance
        };
        let seller = b.owner.clone();
        let seller_delta = StatsDelta {
            listed: 0,
            exchanges: 0,
            sold: 1,
            bought: 0,
            earned: seller_amount,
            spent: 0,
        };
        let buyer_delta = StatsDelta {
            listed: 0,
            exchanges: 0,
            sold: 0,
            bought: 1,
            earned: 0,
            spent: price,
        };
        let seller_record = match self.bumped_user(&seller, seller_delta) {
            Some(u) => u,
            None => return Err(MarketError::Overflow),
        };
        let buyer_record = match self.bumped_user(&buyer, buyer_delta) {
            Some(u) => u,
            None => return Err(MarketError::Overflow),
        };
        let ghost s0 = self@;
        let mut sold_book = b;
        sold_book.is_available = false;
        self.fee_balance = new_balance;
        self.books.set(idx, sold_book);
        self.store_user(seller_record);
        self.store_user(buyer_record);
        let mut transfers: Vec<Transfer> = Vec::new();
        transfers.push(
            Transfer {
                from: Party::Account(buyer.clone()),
                to: Party::Account(seller),
                amount: seller_amount,
            },
        );
        if fee > 0 {
            transfers.push(Transfer { from: Party::Account(buyer), to: Party::Contract, amount: fee });
        }
        let ghost expected = sale_transfers(
            buyer,
            s0.book(book_id).owner,
            seller_amount as int,
            fee as int,
        );
        assert(transfers@ =~= expected);
        Ok(Payout { token_contract, transfers })
    }

    /// Takes a book listed for exchange: it becomes unavailable and the swap is
    /// counted for both accounts.
    pub fn request_exchange(&mut self, requester: String, book_id: u64) -> (r: Result<
        (),
        MarketError,
    >)
        requires
            old(self).wf(),
        ensures
            final(self).wf(),
            match r {
                Ok(()) => old(self)@.request_exchange(requester, book_id) == Ok::<
                    MarketState,
                    MarketError,
                >(final(self)@),
                Err(e) => old(self)@.request_exchange(requester, book_id) == Err::<
                    MarketState,
                    MarketError,
                >(e) && final(self)@ == old(self)@,
            },
    {
        if book_id < 1 || book_id > self.books.len() as u64 {
            return Err(MarketError::BookNotFound);
        }
        let idx = (book_id - 1) as usize;
        let b = self.books[idx].clone();
        assert(book_ok(self@.books[idx as int], idx as int));
        if b.listing_type != ListingType::Exchange {
            return Err(MarketError::NotForExchange);
        }
        if !b.is_available {
            return Err(MarketError::NotAvailable);
        }
        if b.owner == requester {
            return Err(MarketError::OwnBook);
        }
        let d = StatsDelta { listed: 0, exchanges: 1, sold: 0, bought: 0, earned: 0, spent: 0 };
        let owner = b.owner.clone();
        let owner_record = match self.bumped_user(&owner, d) {
            Some(u) => u,
            None => return Err(MarketError::Overflow),
        };
        let requester_record = match self.bumped_user(&requester, d) {
            Some(u) => u,
            None => return Err(MarketError::Overflow),
        };
        let mut swapped = b;
        swapped.is_available = false;
        self.books.set(idx, swapped);
        self.store_user(owner_record);
        self.store_user(requester_record);
        Ok(())
    }

    /// The owner of an available book for sale sets a new, positive price.
    pub fn update_price(&mut self, owner: String, book_id: u64, new_price: i128) -> (r: Result<
        (),
        MarketError,
    >)
        requires
            old(self).wf(),
        ensures
            final(self).wf(),
            match r {
                Ok(()) => old(self)@.update_price(owner, book_id, new_price) == Ok::<
                    MarketState,
                    MarketError,
                >(final(self)@),
                Err(e) => old(self)@.update_price(owner, book_id, new_price) == Err::<
                    MarketState,
                    MarketError,
                >(e) && final(self)@ == old(self)@,
            },
    {
        if book_id < 1 || book_id > self.books.len() as u64 {
            return Err(MarketError::BookNotFound);
        }
        let idx = (book_id - 1) as usize;
        let mut b = self.books[idx].clone();
        assert(book_ok(self@.books[idx as int], idx as int));
        if b.owner != owner {
            return Err(MarketError::NotOwner);
        }
        if b.listing_type != ListingType::Sale {
            return Err(MarketError::NotForSale);
        }
        if !b.is_available {
            return Err(MarketError::NotAvailable);
        }
        if new_price <= 0 {
            return Err(MarketError::InvalidPrice);
        }
        b.price = new_price;
        self.books.set(idx, b);
        Ok(())
    }

    /// The owner of an available book takes it off the market.
    pub fn unlist_book(&mut self, owner: String, book_id: u64) -> (r: Result<(), MarketError>)
        requires
            old(self).wf(),
        ensures
            final(self).wf(),
            match r {
                Ok(()) => old(self)@.unlist_book(owner, book_id) == Ok::<MarketState, MarketError>(
                    final(self)@,
                ),
                Err(e) => old(self)@.unlist_book(owner, book_id) == Err::<MarketState, MarketError>(
                    e,
                ) && final(self)@ == old(self)@,
            },
    {
        if book_id < 1 || book_id > self.books.len() as u64 {
            return Err(MarketError::BookNotFound);
        }
        let idx = (book_id - 1) as usize;
        let mut b = self.books[idx].clone();
        assert(book_ok(self@.books[idx as int], idx as int));
        if b.owner != owner {
            return Err(MarketError::NotOwner);
        }
        if !b.is_available {
            return Err(MarketError::NotAvailable);
        }
        b.is_available = false;
        self.books.set(idx, b);
        Ok(())
    }

    /// Empties the collected fees; returns the transfer of them from the
    /// contract to the administrator.
    pub fn withdraw_fees(&mut self) -> (r: Result<Payout, MarketError>)
        requires
            old(self).wf(),
        ensures
            final(self).wf(),
            match r {
                Ok(p) => old(self)@.withdraw_fees() == Ok::<(MarketState, PayoutView), MarketError>(
                    (final(self)@, p@),
                ),
                Err(e) => old(self)@.withdraw_fees() == Err::<(MarketState, PayoutView), MarketError>(
                    e,
                ) && final(self)@ == old(self)@,
            },
    {
        let (admin, token_contract) = match &self.config {
            None => return Err(MarketError::NotInitialized),
            Some(c) => (c.admin.clone(), c.token_contract.clone()),
        };
        if self.fee_balance == 0 {
            return Err(MarketError::NoFees);
        }
        let amount = self.fee_balance;
        let mut transfers: Vec<Transfer> = Vec::new();
        transfers.push(Transfer { from: Party::Contract, to: Party::Account(admin), amount });
        self.fee_balance = 0;
        let p = Payout { token_contract, transfers };
        assert(p@.transfers =~= old(self)@.withdraw_fees().unwrap().1.transfers);
        Ok(p)
    }

    /// The available books that `filter` accepts, in order of id.
    pub fn filter_books(&self, filter: &BookFilter) -> (r: Vec<Book>)
        ensures
            r@ == self@.search(*filter),
    {
        let n = self.books.len();
        let mut results: Vec<Book> = Vec::new();
        let mut i: usize = 0;
        while i < n
            invariant
                n == self.books@.len(),
                i <= n,
                results@ == self.books@.take(i as int).filter(filter.pred()),
            decreases n - i,
        {
            proof {
                reveal_with_fuel(Seq::<_>::filter, 1);
                assert(self.books@.take(i + 1).drop_last() =~= self.books@.take(i as int));
            }
            let b = &self.books[i];
            if filter.matches(b) {
                results.push(b.clone());
            }
            i = i + 1;
        }
        proof {
            assert(self.books@.take(n as int) =~= self.books@);
        }
        results
    }

    /// The available books of a grade.
    pub fn search_by_grade(&self, grade: u32) -> (r: Vec<Book>)
        ensures
            r@ == self@.search(BookFilter::Grade(grade)),
    {
        self.filter_books(&BookFilter::Grade(grade))
    }

    /// The available books of a subject.
    pub fn search_by_subject(&self, subject: String) -> (r: Vec<Book>)
        ensures
            r@ == self@.search(BookFilter::Subject(subject)),
    {
        self.filter_books(&BookFilter::Subject(subject))
    }

    /// The available books listed for sale.
    pub fn search_for_sale(&self) -> (r: Vec<Book>)
        ensures
            r@ == self@.search(BookFilter::ForSale),
    {
        self.filter_books(&BookFilter::ForSale)
    }

    /// The available books listed for exchange.
    pub fn search_for_exchange(&self) -> (r: Vec<Book>)
        ensures
            r@ == self@.search(BookFilter::ForExchange),
    {
        self.filter_books(&BookFilter::ForExchange)
    }

    /// Rebuilds a marketplace from its stored parts, or `None` when they do not
    /// satisfy the invariant: fees not negative, a fee of at most 10 percent,
    /// books with ids 1, 2, ... in order, valid grades, conditions and prices,
    /// and one record per address.
    pub fn from_parts(config: Option<Config>, fee_balance: i128, books: Vec<Book>, users: Vec<User>) -> (r:
        Option<Self>)
        ensures
            r is Some <==> (MarketState {
                config,
                fee_balance,
                books: books@,
                users: users_map(users@),
            }.wf() && distinct_addresses(users@)),
            r matches Some(m) ==> m.wf() && m@ == (MarketState {
                config,
                fee_balance,
                books: books@,
                users: users_map(users@),
            }),
    {
        if fee_balance < 0 {
            return None;
        }
        match &config {
            Some(c) => {
                if c.fee_percent > 10 {
                    return None;
                }
            },
            None => {},
        }
        let nb = books.len();
        let mut i: usize = 0;
        while i < nb
            invariant
                nb == books@.len(),
                i <= nb,
                forall|j: int| 0 <= j < i ==> #[trigger] book_ok(books@[j], j),
            decreases nb - i,
        {
            let b = &books[i];
            let ok = b.id == (i as u64) + 1 && b.grade >= 1 && b.grade <= 12 && b.condition >= 1
                && b.condition <= 5 && (b.listing_type != ListingType::Sale || b.price > 0) && (
            b.listing_type != ListingType::Exchange || b.price == 0);
            if !ok {
                assert(!book_ok(books@[i as int], i as int));
                return None;
            }
            i = i + 1;
        }
        let nu = users.len();
        let mut k: usize = 0;
        while k < nu
            invariant
                nu == users@.len(),
                k <= nu,
                distinct_addresses(users@.take(k as int)),
            decreases nu - k,
        {
            let mut j: usize = 0;
            while j < k
                invariant
                    nu == users@.len(),
                    j <= k < nu,
                    forall|m: int| 0 <= m < j ==> (#[trigger] users@[m]).address@ != users@[k as int].address@,
                decreases k - j,
            {
                if users[j].address == users[k].address {
                    assert(!distinct_addresses(users@));
                    return None;
                }
                j = j + 1;
            }
            assert forall|a: int, b: int|
                0 <= a < k + 1 && 0 <= b < k + 1 && a != b implies #[trigger] users@.take(
                k + 1,
            )[a].address@ != #[trigger] users@.take(k + 1)[b].address@ by {
                if a < k && b < k {
                    assert(users@.take(k as int)[a] == users@[a]);
                    assert(users@.take(k as int)[b] == users@[b]);
                }
            }
            k = k + 1;
        }
        assert(users@.take(nu as int) =~= users@);
        proof {
            lemma_users_map(users@);
        }
        Some(TextbookExchange { config, fee_balance, books, users })
    }

    /// The parts that storage keeps; `from_parts` rebuilds the same marketplace
    /// from them.
    pub fn into_parts(self) -> (r: (Option<Config>, i128, Vec<Book>, Vec<User>))
        requires
            self.wf(),
        ensures
            r.0 == self@.config,
            r.1 == self@.fee_balance,
            r.2@ == self@.books,
            users_map(r.3@) == self@.users,
            distinct_addresses(r.3@),
    {
        (self.config, self.fee_balance, self.books, self.users)
    }
}

} // verus!
