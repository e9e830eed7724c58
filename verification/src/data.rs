//! The entities of a ledger, and for each the mathematical value that the
//! contracts speak of: strings as sequences of characters, vectors as
//! sequences, tag sets as sets, metadata as a map.

use vstd::prelude::*;
use crate::booking::Booking;
use crate::collections::{Metadata, StrSet};
use crate::date::Date;
use crate::decimal::Decimal;

verus! {

impl DeepView for Decimal {
    type V = Decimal;

    open spec fn deep_view(&self) -> Decimal {
        *self
    }
}

impl DeepView for Date {
    type V = Date;

    open spec fn deep_view(&self) -> Date {
        *self
    }
}

impl DeepView for Booking {
    type V = Booking;

    open spec fn deep_view(&self) -> Booking {
        *self
    }
}

impl DeepView for StrSet {
    type V = Set<Seq<char>>;

    open spec fn deep_view(&self) -> Set<Seq<char>> {
        self@
    }
}

impl DeepView for Metadata {
    type V = Map<Seq<char>, Seq<char>>;

    open spec fn deep_view(&self) -> Map<Seq<char>, Seq<char>> {
        self@
    }
}

/// An amount: a number, absent where it is left to be inferred, and a currency.
#[derive(Debug, Clone, PartialEq)]
pub struct Amount {
    pub number: Option<Decimal>,
    pub currency: String,
}

/// The value of an [`Amount`].
pub struct AmountView {
    pub number: Option<Decimal>,
    pub currency: Seq<char>,
}

impl DeepView for Amount {
    type V = AmountView;

    open spec fn deep_view(&self) -> AmountView {
        AmountView {
            number: self.number.deep_view(),
            currency: self.currency.deep_view(),
        }
    }
}

/// A resolved cost of one lot.
#[derive(Debug, Clone)]
pub struct Cost {
    pub date: Date,
    pub number: Decimal,
    pub currency: String,
    pub label: Option<String>,
}

/// The value of a [`Cost`].
pub struct CostView {
    pub date: Date,
    pub number: Decimal,
    pub currency: Seq<char>,
    pub label: Option<Seq<char>>,
}

impl DeepView for Cost {
    type V = CostView;

    open spec fn deep_view(&self) -> CostView {
        CostView {
            date: self.date.deep_view(),
            number: self.number.deep_view(),
            currency: self.currency.deep_view(),
            label: self.label.deep_view(),
        }
    }
}

/// A cost as the `{...}` syntax declares it, not yet resolved. In total form `number_per` is absent.
#[derive(Debug, Clone)]
pub struct CostSpec {
    pub number_per: Option<Decimal>,
    pub number_total: Option<Decimal>,
    pub currency: Option<String>,
    pub date: Option<Date>,
    pub label: Option<String>,
    pub merge: Option<bool>,
}

/// The value of a [`CostSpec`].
pub struct CostSpecView {
    pub number_per: Option<Decimal>,
    pub number_total: Option<Decimal>,
    pub currency: Option<Seq<char>>,
    pub date: Option<Date>,
    pub label: Option<Seq<char>>,
    pub merge: Option<bool>,
}

impl DeepView for CostSpec {
    type V = CostSpecView;

    open spec fn deep_view(&self) -> CostSpecView {
        CostSpecView {
            number_per: self.number_per.deep_view(),
            number_total: self.number_total.deep_view(),
            currency: self.currency.deep_view(),
            date: self.date.deep_view(),
            label: self.label.deep_view(),
            merge: self.merge.deep_view(),
        }
    }
}

/// One account line of a transaction.
#[derive(Debug, Clone)]
pub struct Posting {
    pub metadata: Metadata,
    pub account: String,
    pub units: Option<Amount>,
    pub cost: Option<PostingCost>,
    pub price: Option<Amount>,
    pub flag: Option<char>,
}

/// The value of a [`Posting`].
pub struct PostingView {
    pub metadata: Map<Seq<char>, Seq<char>>,
    pub account: Seq<char>,
    pub units: Option<AmountView>,
    pub cost: Option<PostingCostView>,
    pub price: Option<AmountView>,
    pub flag: Option<char>,
}

impl DeepView for Posting {
    type V = PostingView;

    open spec fn deep_view(&self) -> PostingView {
        PostingView {
            metadata: self.metadata.deep_view(),
            account: self.account.deep_view(),
            units: self.units.deep_view(),
            cost: self.cost.deep_view(),
            price: self.price.deep_view(),
            flag: self.flag.deep_view(),
        }
    }
}

/// The cost of a posting: resolved, or as declared. A parse gives the
/// declared form.
#[derive(Debug, Clone)]
pub enum PostingCost {
    Cost(Cost),
    CostSpec(CostSpec),
}

/// The value of a [`PostingCost`].
pub enum PostingCostView {
    Cost(CostView),
    CostSpec(CostSpecView),
}

impl DeepView for PostingCost {
    type V = PostingCostView;

    open spec fn deep_view(&self) -> PostingCostView {
        match self {
            PostingCost::Cost(c) => PostingCostView::Cost(c.deep_view()),
            PostingCost::CostSpec(c) => PostingCostView::CostSpec(c.deep_view()),
        }
    }
}

/// A transaction: its tags hold the tags written on it and every tag that was pushed where it stands.
#[derive(Debug, Clone)]
pub struct Transaction {
    pub meta: Metadata,
    pub date: Date,
    pub flag: char,
    pub payee: Option<String>,
    pub narration: String,
    pub tags: StrSet,
    pub links: StrSet,
    pub postings: Vec<Posting>,
}

/// The value of a [`Transaction`].
pub struct TransactionView {
    pub meta: Map<Seq<char>, Seq<char>>,
    pub date: Date,
    pub flag: char,
    pub payee: Option<Seq<char>>,
    pub narration: Seq<char>,
    pub tags: Set<Seq<char>>,
    pub links: Set<Seq<char>>,
    pub postings: Seq<PostingView>,
}

impl DeepView for Transaction {
    type V = TransactionView;

    open spec fn deep_view(&self) -> TransactionView {
        TransactionView {
            meta: self.meta.deep_view(),
            date: self.date.deep_view(),
            flag: self.flag.deep_view(),
            payee: self.payee.deep_view(),
            narration: self.narration.deep_view(),
            tags: self.tags.deep_view(),
            links: self.links.deep_view(),
            postings: self.postings.deep_view(),
        }
    }
}

/// The opening of an account.
#[derive(Debug, Clone)]
pub struct Open {
    pub meta: Metadata,
    pub date: Date,
    pub account: String,
    pub currencies: Vec<String>,
    pub booking: Option<Booking>,
}

/// The value of an [`Open`].
pub struct OpenView {
    pub meta: Map<Seq<char>, Seq<char>>,
    pub date: Date,
    pub account: Seq<char>,
    pub currencies: Seq<Seq<char>>,
    pub booking: Option<Booking>,
}

impl DeepView for Open {
    type V = OpenView;

    open spec fn deep_view(&self) -> OpenView {
        OpenView {
            meta: self.meta.deep_view(),
            date: self.date.deep_view(),
            account: self.account.deep_view(),
            currencies: self.currencies.deep_view(),
            booking: self.booking.deep_view(),
        }
    }
}

/// The closing of an account.
#[derive(Debug, Clone)]
pub struct Close {
    pub meta: Metadata,
    pub date: Date,
    pub account: String,
}

/// The value of a [`Close`].
pub struct CloseView {
    pub meta: Map<Seq<char>, Seq<char>>,
    pub date: Date,
    pub account: Seq<char>,
}

impl DeepView for Close {
    type V = CloseView;

    open spec fn deep_view(&self) -> CloseView {
        CloseView {
            meta: self.meta.deep_view(),
            date: self.date.deep_view(),
            account: self.account.deep_view(),
        }
    }
}

/// The declaration of a currency.
#[derive(Debug, Clone)]
pub struct Commodity {
    pub meta: Metadata,
    pub date: Date,
    pub currency: String,
}

/// The value of a [`Commodity`].
pub struct CommodityView {
    pub meta: Map<Seq<char>, Seq<char>>,
    pub date: Date,
    pub currency: Seq<char>,
}

impl DeepView for Commodity {
    type V = CommodityView;

    open spec fn deep_view(&self) -> CommodityView {
        CommodityView {
            meta: self.meta.deep_view(),
            date: self.date.deep_view(),
            currency: self.currency.deep_view(),
        }
    }
}

/// A padding of an account from another.
#[derive(Debug, Clone)]
pub struct Pad {
    pub meta: Metadata,
    pub date: Date,
    pub account: String,
    pub source_account: String,
}

/// The value of a [`Pad`].
pub struct PadView {
    pub meta: Map<Seq<char>, Seq<char>>,
    pub date: Date,
    pub account: Seq<char>,
    pub source_account: Seq<char>,
}

impl DeepView for Pad {
    type V = PadView;

    open spec fn deep_view(&self) -> PadView {
        PadView {
            meta: self.meta.deep_view(),
            date: self.date.deep_view(),
            account: self.account.deep_view(),
            source_account: self.source_account.deep_view(),
        }
    }
}

/// A balance assertion. `tolerance` and `diff_amount` are left to later stages and are absent after a parse.
#[derive(Debug, Clone)]
pub struct Balance {
    pub meta: Metadata,
    pub date: Date,
    pub account: String,
    pub amount: Amount,
    pub tolerance: Option<Decimal>,
    pub diff_amount: Option<Amount>,
}

/// The value of a [`Balance`].
pub struct BalanceView {
    pub meta: Map<Seq<char>, Seq<char>>,
    pub date: Date,
    pub account: Seq<char>,
    pub amount: AmountView,
    pub tolerance: Option<Decimal>,
    pub diff_amount: Option<AmountView>,
}

impl DeepView for Balance {
    type V = BalanceView;

    open spec fn deep_view(&self) -> BalanceView {
        BalanceView {
            meta: self.meta.deep_view(),
            date: self.date.deep_view(),
            account: self.account.deep_view(),
            amount: self.amount.deep_view(),
            tolerance: self.tolerance.deep_view(),
            diff_amount: self.diff_amount.deep_view(),
        }
    }
}

/// A price of a currency on a day.
#[derive(Debug, Clone)]
pub struct Price {
    pub meta: Metadata,
    pub date: Date,
    pub currency: String,
    pub amount: Amount,
}

/// The value of a [`Price`].
pub struct PriceView {
    pub meta: Map<Seq<char>, Seq<char>>,
    pub date: Date,
    pub currency: Seq<char>,
    pub amount: AmountView,
}

impl DeepView for Price {
    type V = PriceView;

    open spec fn deep_view(&self) -> PriceView {
        PriceView {
            meta: self.meta.deep_view(),
            date: self.date.deep_view(),
            currency: self.currency.deep_view(),
            amount: self.amount.deep_view(),
        }
    }
}

/// The value of a named variable from a day on.
#[derive(Debug, Clone)]
pub struct Event {
    pub meta: Metadata,
    pub date: Date,
    pub name: String,
    pub description: String,
}

/// The value of an [`Event`].
pub struct EventView {
    pub meta: Map<Seq<char>, Seq<char>>,
    pub date: Date,
    pub name: Seq<char>,
    pub description: Seq<char>,
}

impl DeepView for Event {
    type V = EventView;

    open spec fn deep_view(&self) -> EventView {
        EventView {
            meta: self.meta.deep_view(),
            date: self.date.deep_view(),
            name: self.name.deep_view(),
            description: self.description.deep_view(),
        }
    }
}

/// A plugin to load; it carries no metadata.
#[derive(Debug, Clone)]
pub struct Plugin {
    pub module: String,
    pub config: Option<String>,
}

/// The value of a [`Plugin`].
pub struct PluginView {
    pub module: Seq<char>,
    pub config: Option<Seq<char>>,
}

impl DeepView for Plugin {
    type V = PluginView;

    open spec fn deep_view(&self) -> PluginView {
        PluginView {
            module: self.module.deep_view(),
            config: self.config.deep_view(),
        }
    }
}

/// An option of the file.
#[derive(Debug, Clone)]
pub struct Opt {
    pub meta: Metadata,
    pub name: String,
    pub value: String,
}

/// The value of an [`Opt`].
pub struct OptView {
    pub meta: Map<Seq<char>, Seq<char>>,
    pub name: Seq<char>,
    pub value: Seq<char>,
}

impl DeepView for Opt {
    type V = OptView;

    open spec fn deep_view(&self) -> OptView {
        OptView {
            meta: self.meta.deep_view(),
            name: self.name.deep_view(),
            value: self.value.deep_view(),
        }
    }
}

/// A custom directive with its values in order.
#[derive(Debug, Clone)]
pub struct Custom {
    pub meta: Metadata,
    pub date: Date,
    pub name: String,
    pub values: Vec<String>,
}

/// The value of a [`Custom`].
pub struct CustomView {
    pub meta: Map<Seq<char>, Seq<char>>,
    pub date: Date,
    pub name: Seq<char>,
    pub values: Seq<Seq<char>>,
}

impl DeepView for Custom {
    type V = CustomView;

    open spec fn deep_view(&self) -> CustomView {
        CustomView {
            meta: self.meta.deep_view(),
            date: self.date.deep_view(),
            name: self.name.deep_view(),
            values: self.values.deep_view(),
        }
    }
}

/// A note on an account.
#[derive(Debug, Clone)]
pub struct Note {
    pub meta: Metadata,
    pub date: Date,
    pub account: String,
    pub comment: String,
    pub tags: StrSet,
    pub link: StrSet,
}

/// The value of a [`Note`].
pub struct NoteView {
    pub meta: Map<Seq<char>, Seq<char>>,
    pub date: Date,
    pub account: Seq<char>,
    pub comment: Seq<char>,
    pub tags: Set<Seq<char>>,
    pub link: Set<Seq<char>>,
}

impl DeepView for Note {
    type V = NoteView;

    open spec fn deep_view(&self) -> NoteView {
        NoteView {
            meta: self.meta.deep_view(),
            date: self.date.deep_view(),
            account: self.account.deep_view(),
            comment: self.comment.deep_view(),
            tags: self.tags.deep_view(),
            link: self.link.deep_view(),
        }
    }
}

/// A document filed under an account.
#[derive(Debug, Clone)]
pub struct Document {
    pub meta: Metadata,
    pub date: Date,
    pub account: String,
    pub filename: String,
    pub tags: StrSet,
    pub link: StrSet,
}

/// The value of a [`Document`].
pub struct DocumentView {
    pub meta: Map<Seq<char>, Seq<char>>,
    pub date: Date,
    pub account: Seq<char>,
    pub filename: Seq<char>,
    pub tags: Set<Seq<char>>,
    pub link: Set<Seq<char>>,
}

impl DeepView for Document {
    type V = DocumentView;

    open spec fn deep_view(&self) -> DocumentView {
        DocumentView {
            meta: self.meta.deep_view(),
            date: self.date.deep_view(),
            account: self.account.deep_view(),
            filename: self.filename.deep_view(),
            tags: self.tags.deep_view(),
            link: self.link.deep_view(),
        }
    }
}

/// A named query.
#[derive(Debug, Clone)]
pub struct Query {
    pub meta: Metadata,
    pub date: Date,
    pub name: String,
    pub query_string: String,
}

/// The value of a [`Query`].
pub struct QueryView {
    pub meta: Map<Seq<char>, Seq<char>>,
    pub date: Date,
    pub name: Seq<char>,
    pub query_string: Seq<char>,
}

impl DeepView for Query {
    type V = QueryView;

    open spec fn deep_view(&self) -> QueryView {
        QueryView {
            meta: self.meta.deep_view(),
            date: self.date.deep_view(),
            name: self.name.deep_view(),
            query_string: self.query_string.deep_view(),
        }
    }
}

/// One directive of a ledger.
#[derive(Debug, Clone)]
pub enum Directive {
    Open(Open),
    Close(Close),
    Commodity(Commodity),
    Transaction(Transaction),
    Pad(Pad),
    Balance(Balance),
    Price(Price),
    Event(Event),
    Plugin(Plugin),
    Option(Opt),
    Custom(Custom),
    Note(Note),
    Document(Document),
    Query(Query),
}

/// The value of a [`Directive`].
pub enum DirectiveView {
    Open(OpenView),
    Close(CloseView),
    Commodity(CommodityView),
    Transaction(TransactionView),
    Pad(PadView),
    Balance(BalanceView),
    Price(PriceView),
    Event(EventView),
    Plugin(PluginView),
    Option(OptView),
    Custom(CustomView),
    Note(NoteView),
    Document(DocumentView),
    Query(QueryView),
}

impl DeepView for Directive {
    type V = DirectiveView;

    open spec fn deep_view(&self) -> DirectiveView {
        match self {
            Directive::Open(d) => DirectiveView::Open(d.deep_view()),
            Directive::Close(d) => DirectiveView::Close(d.deep_view()),
            Directive::Commodity(d) => DirectiveView::Commodity(d.deep_view()),
            Directive::Transaction(d) => DirectiveView::Transaction(d.deep_view()),
            Directive::Pad(d) => DirectiveView::Pad(d.deep_view()),
            Directive::Balance(d) => DirectiveView::Balance(d.deep_view()),
            Directive::Price(d) => DirectiveView::Price(d.deep_view()),
            Directive::Event(d) => DirectiveView::Event(d.deep_view()),
            Directive::Plugin(d) => DirectiveView::Plugin(d.deep_view()),
            Directive::Option(d) => DirectiveView::Option(d.deep_view()),
            Directive::Custom(d) => DirectiveView::Custom(d.deep_view()),
            Directive::Note(d) => DirectiveView::Note(d.deep_view()),
            Directive::Document(d) => DirectiveView::Document(d.deep_view()),
            Directive::Query(d) => DirectiveView::Query(d.deep_view()),
        }
    }
}

impl DirectiveView {
    /// The directive with `key` set to `value` in its metadata; a plugin
    /// carries none and stays as it is.
    pub open spec fn with_meta(self, key: Seq<char>, value: Seq<char>) -> DirectiveView {
        match self {
            DirectiveView::Open(d) => DirectiveView::Open(OpenView { meta: d.meta.insert(key, value), ..d }),
            DirectiveView::Close(d) => DirectiveView::Close(CloseView { meta: d.meta.insert(key, value), ..d }),
            DirectiveView::Commodity(d) => DirectiveView::Commodity(CommodityView { meta: d.meta.insert(key, value), ..d }),
            DirectiveView::Transaction(d) => DirectiveView::Transaction(TransactionView { meta: d.meta.insert(key, value), ..d }),
            DirectiveView::Pad(d) => DirectiveView::Pad(PadView { meta: d.meta.insert(key, value), ..d }),
            DirectiveView::Balance(d) => DirectiveView::Balance(BalanceView { meta: d.meta.insert(key, value), ..d }),
            DirectiveView::Price(d) => DirectiveView::Price(PriceView { meta: d.meta.insert(key, value), ..d }),
            DirectiveView::Event(d) => DirectiveView::Event(EventView { meta: d.meta.insert(key, value), ..d }),
            DirectiveView::Plugin(d) => DirectiveView::Plugin(d),
            DirectiveView::Option(d) => DirectiveView::Option(OptView { meta: d.meta.insert(key, value), ..d }),
            DirectiveView::Custom(d) => DirectiveView::Custom(CustomView { meta: d.meta.insert(key, value), ..d }),
            DirectiveView::Note(d) => DirectiveView::Note(NoteView { meta: d.meta.insert(key, value), ..d }),
            DirectiveView::Document(d) => DirectiveView::Document(DocumentView { meta: d.meta.insert(key, value), ..d }),
            DirectiveView::Query(d) => DirectiveView::Query(QueryView { meta: d.meta.insert(key, value), ..d }),
        }
    }
}

impl Directive {
    /// Sets `key` to `value` in the metadata of the directive; a plugin
    /// carries none and stays as it is.
    pub fn insert_meta(&mut self, key: String, value: String)
        ensures
            final(self).deep_view() == old(self).deep_view().with_meta(key@, value@),
            final(self).deep_view().is_valid() == old(self).deep_view().is_valid(),
    {
        match self {
            Directive::Open(d) => {
                d.meta.insert(key, value);
            },
            Directive::Close(d) => {
                d.meta.insert(key, value);
            },
            Directive::Commodity(d) => {
                d.meta.insert(key, value);
            },
            Directive::Transaction(d) => {
                d.meta.insert(key, value);
            },
            Directive::Pad(d) => {
                d.meta.insert(key, value);
            },
            Directive::Balance(d) => {
                d.meta.insert(key, value);
            },
            Directive::Price(d) => {
                d.meta.insert(key, value);
            },
            Directive::Event(d) => {
                d.meta.insert(key, value);
            },
            Directive::Plugin(_) => {},
            Directive::Option(d) => {
                d.meta.insert(key, value);
            },
            Directive::Custom(d) => {
                d.meta.insert(key, value);
            },
            Directive::Note(d) => {
                d.meta.insert(key, value);
            },
            Directive::Document(d) => {
                d.meta.insert(key, value);
            },
            Directive::Query(d) => {
                d.meta.insert(key, value);
            },
        }
    }
}

/// The result of a parse: the paths of the `include` lines, the options as
/// pairs of name and value, and the directives, each in source order.
#[derive(Debug, Clone)]
pub struct File {
    pub includes: Vec<String>,
    pub options: Vec<(String, String)>,
    pub directives: Vec<Directive>,
}

/// The value of a [`File`].
pub struct FileView {
    pub includes: Seq<Seq<char>>,
    pub options: Seq<(Seq<char>, Seq<char>)>,
    pub directives: Seq<DirectiveView>,
}

impl DeepView for File {
    type V = FileView;

    open spec fn deep_view(&self) -> FileView {
        FileView {
            includes: self.includes.deep_view(),
            options: self.options.deep_view(),
            directives: self.directives.deep_view(),
        }
    }
}

/// A number, where there is one, is a valid decimal.
pub open spec fn valid_number(n: Option<Decimal>) -> bool {
    n matches Some(d) ==> d.is_valid()
}

/// A date, where there is one, is a day of the calendar.
pub open spec fn valid_date(d: Option<Date>) -> bool {
    d matches Some(date) ==> date.is_valid()
}

/// An amount, where there is one, is valid.
pub open spec fn valid_amount(a: Option<AmountView>) -> bool {
    a matches Some(amount) ==> amount.is_valid()
}

impl AmountView {
    /// The number is a valid decimal.
    pub open spec fn is_valid(self) -> bool {
        valid_number(self.number)
    }
}

impl CostView {
    pub open spec fn is_valid(self) -> bool {
        self.date.is_valid() && self.number.is_valid()
    }
}

impl CostSpecView {
    pub open spec fn is_valid(self) -> bool {
        valid_number(self.number_per) && valid_number(self.number_total) && valid_date(self.date)
    }
}

impl PostingCostView {
    pub open spec fn is_valid(self) -> bool {
        match self {
            PostingCostView::Cost(c) => c.is_valid(),
            PostingCostView::CostSpec(c) => c.is_valid(),
        }
    }
}

impl PostingView {
    /// Units, cost and price hold valid decimals and dates.
    pub open spec fn is_valid(self) -> bool {
        &&& valid_amount(self.units)
        &&& (self.cost matches Some(c) ==> c.is_valid())
        &&& valid_amount(self.price)
    }
}

/// Every posting of the sequence is valid.
pub open spec fn valid_postings(postings: Seq<PostingView>) -> bool {
    forall|i: int| 0 <= i < postings.len() ==> (#[trigger] postings[i]).is_valid()
}

impl DirectiveView {
    /// Every decimal of the directive fits 96 bits with a scale of at most
    /// 28, and every date is a day of the calendar.
    pub open spec fn is_valid(self) -> bool {
        match self {
            DirectiveView::Open(d) => d.date.is_valid(),
            DirectiveView::Close(d) => d.date.is_valid(),
            DirectiveView::Commodity(d) => d.date.is_valid(),
            DirectiveView::Transaction(d) => d.date.is_valid() && valid_postings(d.postings),
            DirectiveView::Pad(d) => d.date.is_valid(),
            DirectiveView::Balance(d) => d.date.is_valid() && d.amount.is_valid() && valid_number(d.tolerance)
                && valid_amount(d.diff_amount),
            DirectiveView::Price(d) => d.date.is_valid() && d.amount.is_valid(),
            DirectiveView::Event(d) => d.date.is_valid(),
            DirectiveView::Plugin(d) => true,
            DirectiveView::Option(d) => true,
            DirectiveView::Custom(d) => d.date.is_valid(),
            DirectiveView::Note(d) => d.date.is_valid(),
            DirectiveView::Document(d) => d.date.is_valid(),
            DirectiveView::Query(d) => d.date.is_valid(),
        }
    }
}

impl FileView {
    /// Every directive of the file is valid.
    pub open spec fn is_valid(self) -> bool {
        forall|i: int| 0 <= i < self.directives.len() ==> (#[trigger] self.directives[i]).is_valid()
    }
}

} // verus!
