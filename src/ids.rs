use vstd::prelude::*;

verus! {

/// What every resource identifier offers: its text, and copies of it.
pub trait ResourceId: View<V = Seq<char>> + Sized {
    fn from_text(s: String) -> (r: Self)
        ensures
            r@ == s@,
    ;

    fn text(&self) -> (r: &str)
        ensures
            r@ == self@,
    ;

    fn duplicate(&self) -> (r: Self)
        ensures
            r@ == self@,
    ;
}

/// The identifier of a balance transaction; not interchangeable with the identifier of another resource.
#[derive(Clone, Debug, PartialEq, Eq, Hash)]
pub struct BalanceTransactionId {
    inner: String,
}

impl View for BalanceTransactionId {
    type V = Seq<char>;

    closed spec fn view(&self) -> Seq<char> {
        self.inner@
    }
}

impl ResourceId for BalanceTransactionId {
    fn from_text(s: String) -> (r: Self) {
        BalanceTransactionId { inner: s }
    }

    fn text(&self) -> (r: &str) {
        self.inner.as_str()
    }

    fn duplicate(&self) -> (r: Self) {
        BalanceTransactionId { inner: self.inner.clone() }
    }
}

impl BalanceTransactionId {
    pub fn new(s: String) -> (r: Self)
        ensures
            r@ == s@,
    {
        BalanceTransactionId { inner: s }
    }

    pub fn from_str(s: &str) -> (r: Self)
        ensures
            r@ == s@,
    {
        BalanceTransactionId { inner: String::from_str(s) }
    }

    pub fn as_str(&self) -> (r: &str)
        ensures
            r@ == self@,
    {
        self.inner.as_str()
    }
}

/// The identifier of a charge; not interchangeable with the identifier of another resource.
#[derive(Clone, Debug, PartialEq, Eq, Hash)]
pub struct ChargeId {
    inner: String,
}

impl View for ChargeId {
    type V = Seq<char>;

    closed spec fn view(&self) -> Seq<char> {
        self.inner@
    }
}

impl ResourceId for ChargeId {
    fn from_text(s: String) -> (r: Self) {
        ChargeId { inner: s }
    }

    fn text(&self) -> (r: &str) {
        self.inner.as_str()
    }

    fn duplicate(&self) -> (r: Self) {
        ChargeId { inner: self.inner.clone() }
    }
}

impl ChargeId {
    pub fn new(s: String) -> (r: Self)
        ensures
            r@ == s@,
    {
        ChargeId { inner: s }
    }

    pub fn from_str(s: &str) -> (r: Self)
        ensures
            r@ == s@,
    {
        ChargeId { inner: String::from_str(s) }
    }

    pub fn as_str(&self) -> (r: &str)
        ensures
            r@ == self@,
    {
        self.inner.as_str()
    }
}

/// The identifier of a customer; not interchangeable with the identifier of another resource.
#[derive(Clone, Debug, PartialEq, Eq, Hash)]
pub struct CustomerId {
    inner: String,
}

impl View for CustomerId {
    type V = Seq<char>;

    closed spec fn view(&self) -> Seq<char> {
        self.inner@
    }
}

impl ResourceId for CustomerId {
    fn from_text(s: String) -> (r: Self) {
        CustomerId { inner: s }
    }

    fn text(&self) -> (r: &str) {
        self.inner.as_str()
    }

    fn duplicate(&self) -> (r: Self) {
        CustomerId { inner: self.inner.clone() }
    }
}

impl CustomerId {
    pub fn new(s: String) -> (r: Self)
        ensures
            r@ == s@,
    {
        CustomerId { inner: s }
    }

    pub fn from_str(s: &str) -> (r: Self)
        ensures
            r@ == s@,
    {
        CustomerId { inner: String::from_str(s) }
    }

    pub fn as_str(&self) -> (r: &str)
        ensures
            r@ == self@,
    {
        self.inner.as_str()
    }
}

/// The identifier of a plan; not interchangeable with the identifier of another resource.
#[derive(Clone, Debug, PartialEq, Eq, Hash)]
pub struct PlanId {
    inner: String,
}

impl View for PlanId {
    type V = Seq<char>;

    closed spec fn view(&self) -> Seq<char> {
        self.inner@
    }
}

impl ResourceId for PlanId {
    fn from_text(s: String) -> (r: Self) {
        PlanId { inner: s }
    }

    fn text(&self) -> (r: &str) {
        self.inner.as_str()
    }

    fn duplicate(&self) -> (r: Self) {
        PlanId { inner: self.inner.clone() }
    }
}

impl PlanId {
    pub fn new(s: String) -> (r: Self)
        ensures
            r@ == s@,
    {
        PlanId { inner: s }
    }

    pub fn from_str(s: &str) -> (r: Self)
        ensures
            r@ == s@,
    {
        PlanId { inner: String::from_str(s) }
    }

    pub fn as_str(&self) -> (r: &str)
        ensures
            r@ == self@,
    {
        self.inner.as_str()
    }
}

/// The identifier of a refund; not interchangeable with the identifier of another resource.
#[derive(Clone, Debug, PartialEq, Eq, Hash)]
pub struct RefundId {
    inner: String,
}

impl View for RefundId {
    type V = Seq<char>;

    closed spec fn view(&self) -> Seq<char> {
        self.inner@
    }
}

impl ResourceId for RefundId {
    fn from_text(s: String) -> (r: Self) {
        RefundId { inner: s }
    }

    fn text(&self) -> (r: &str) {
        self.inner.as_str()
    }

    fn duplicate(&self) -> (r: Self) {
        RefundId { inner: self.inner.clone() }
    }
}

impl RefundId {
    pub fn new(s: String) -> (r: Self)
        ensures
            r@ == s@,
    {
        RefundId { inner: s }
    }

    pub fn from_str(s: &str) -> (r: Self)
        ensures
            r@ == s@,
    {
        RefundId { inner: String::from_str(s) }
    }

    pub fn as_str(&self) -> (r: &str)
        ensures
            r@ == self@,
    {
        self.inner.as_str()
    }
}

/// The identifier of a subscription; not interchangeable with the identifier of another resource.
#[derive(Clone, Debug, PartialEq, Eq, Hash)]
pub struct SubscriptionId {
    inner: String,
}

impl View for SubscriptionId {
    type V = Seq<char>;

    closed spec fn view(&self) -> Seq<char> {
        self.inner@
    }
}

impl ResourceId for SubscriptionId {
    fn from_text(s: String) -> (r: Self) {
        SubscriptionId { inner: s }
    }

    fn text(&self) -> (r: &str) {
        self.inner.as_str()
    }

    fn duplicate(&self) -> (r: Self) {
        SubscriptionId { inner: self.inner.clone() }
    }
}

impl SubscriptionId {
    pub fn new(s: String) -> (r: Self)
        ensures
            r@ == s@,
    {
        SubscriptionId { inner: s }
    }

    pub fn from_str(s: &str) -> (r: Self)
        ensures
            r@ == s@,
    {
        SubscriptionId { inner: String::from_str(s) }
    }

    pub fn as_str(&self) -> (r: &str)
        ensures
            r@ == self@,
    {
        self.inner.as_str()
    }
}

/// The identifier of a transfer reversal; not interchangeable with the identifier of another resource.
#[derive(Clone, Debug, PartialEq, Eq, Hash)]
pub struct TransferReversalId {
    inner: String,
}

impl View for TransferReversalId {
    type V = Seq<char>;

    closed spec fn view(&self) -> Seq<char> {
        self.inner@
    }
}

impl ResourceId for TransferReversalId {
    fn from_text(s: String) -> (r: Self) {
        TransferReversalId { inner: s }
    }

    fn text(&self) -> (r: &str) {
        self.inner.as_str()
    }

    fn duplicate(&self) -> (r: Self) {
        TransferReversalId { inner: self.inner.clone() }
    }
}

impl TransferReversalId {
    pub fn new(s: String) -> (r: Self)
        ensures
            r@ == s@,
    {
        TransferReversalId { inner: s }
    }

    pub fn from_str(s: &str) -> (r: Self)
        ensures
            r@ == s@,
    {
        TransferReversalId { inner: String::from_str(s) }
    }

    pub fn as_str(&self) -> (r: &str)
        ensures
            r@ == self@,
    {
        self.inner.as_str()
    }
}

/// The identifier of an invoice; not interchangeable with the identifier of another resource.
#[derive(Clone, Debug, PartialEq, Eq, Hash)]
pub struct InvoiceId {
    inner: String,
}

impl View for InvoiceId {
    type V = Seq<char>;

    closed spec fn view(&self) -> Seq<char> {
        self.inner@
    }
}

impl ResourceId for InvoiceId {
    fn from_text(s: String) -> (r: Self) {
        InvoiceId { inner: s }
    }

    fn text(&self) -> (r: &str) {
        self.inner.as_str()
    }

    fn duplicate(&self) -> (r: Self) {
        InvoiceId { inner: self.inner.clone() }
    }
}

impl InvoiceId {
    pub fn new(s: String) -> (r: Self)
        ensures
            r@ == s@,
    {
        InvoiceId { inner: s }
    }

    pub fn from_str(s: &str) -> (r: Self)
        ensures
            r@ == s@,
    {
        InvoiceId { inner: String::from_str(s) }
    }

    pub fn as_str(&self) -> (r: &str)
        ensures
            r@ == self@,
    {
        self.inner.as_str()
    }
}

/// The identifier of a payment method; not interchangeable with the identifier of another resource.
#[derive(Clone, Debug, PartialEq, Eq, Hash)]
pub struct PaymentMethodId {
    inner: String,
}

impl View for PaymentMethodId {
    type V = Seq<char>;

    closed spec fn view(&self) -> Seq<char> {
        self.inner@
    }
}

impl ResourceId for PaymentMethodId {
    fn from_text(s: String) -> (r: Self) {
        PaymentMethodId { inner: s }
    }

    fn text(&self) -> (r: &str) {
        self.inner.as_str()
    }

    fn duplicate(&self) -> (r: Self) {
        PaymentMethodId { inner: self.inner.clone() }
    }
}

impl PaymentMethodId {
    pub fn new(s: String) -> (r: Self)
        ensures
            r@ == s@,
    {
        PaymentMethodId { inner: s }
    }

    pub fn from_str(s: &str) -> (r: Self)
        ensures
            r@ == s@,
    {
        PaymentMethodId { inner: String::from_str(s) }
    }

    pub fn as_str(&self) -> (r: &str)
        ensures
            r@ == self@,
    {
        self.inner.as_str()
    }
}

/// The identifier of a subscription item; not interchangeable with the identifier of another resource.
#[derive(Clone, Debug, PartialEq, Eq, Hash)]
pub struct SubscriptionItemId {
    inner: String,
}

impl View for SubscriptionItemId {
    type V = Seq<char>;

    closed spec fn view(&self) -> Seq<char> {
        self.inner@
    }
}

impl ResourceId for SubscriptionItemId {
    fn from_text(s: String) -> (r: Self) {
        SubscriptionItemId { inner: s }
    }

    fn text(&self) -> (r: &str) {
        self.inner.as_str()
    }

    fn duplicate(&self) -> (r: Self) {
        SubscriptionItemId { inner: self.inner.clone() }
    }
}

impl SubscriptionItemId {
    pub fn new(s: String) -> (r: Self)
        ensures
            r@ == s@,
    {
        SubscriptionItemId { inner: s }
    }

    pub fn from_str(s: &str) -> (r: Self)
        ensures
            r@ == s@,
    {
        SubscriptionItemId { inner: String::from_str(s) }
    }

    pub fn as_str(&self) -> (r: &str)
        ensures
            r@ == self@,
    {
        self.inner.as_str()
    }
}

/// The identifier of a tax rate; not interchangeable with the identifier of another resource.
#[derive(Clone, Debug, PartialEq, Eq, Hash)]
pub struct TaxRateId {
    inner: String,
}

impl View for TaxRateId {
    type V = Seq<char>;

    closed spec fn view(&self) -> Seq<char> {
        self.inner@
    }
}

impl ResourceId for TaxRateId {
    fn from_text(s: String) -> (r: Self) {
        TaxRateId { inner: s }
    }

    fn text(&self) -> (r: &str) {
        self.inner.as_str()
    }

    fn duplicate(&self) -> (r: Self) {
        TaxRateId { inner: self.inner.clone() }
    }
}

impl TaxRateId {
    pub fn new(s: String) -> (r: Self)
        ensures
            r@ == s@,
    {
        TaxRateId { inner: s }
    }

    pub fn from_str(s: &str) -> (r: Self)
        ensures
            r@ == s@,
    {
        TaxRateId { inner: String::from_str(s) }
    }

    pub fn as_str(&self) -> (r: &str)
        ensures
            r@ == self@,
    {
        self.inner.as_str()
    }
}

/// The identifier of a card; not interchangeable with the identifier of another resource.
#[derive(Clone, Debug, PartialEq, Eq, Hash)]
pub struct CardId {
    inner: String,
}

impl View for CardId {
    type V = Seq<char>;

    closed spec fn view(&self) -> Seq<char> {
        self.inner@
    }
}

impl ResourceId for CardId {
    fn from_text(s: String) -> (r: Self) {
        CardId { inner: s }
    }

    fn text(&self) -> (r: &str) {
        self.inner.as_str()
    }

    fn duplicate(&self) -> (r: Self) {
        CardId { inner: self.inner.clone() }
    }
}

impl CardId {
    pub fn new(s: String) -> (r: Self)
        ensures
            r@ == s@,
    {
        CardId { inner: s }
    }

    pub fn from_str(s: &str) -> (r: Self)
        ensures
            r@ == s@,
    {
        CardId { inner: String::from_str(s) }
    }

    pub fn as_str(&self) -> (r: &str)
        ensures
            r@ == self@,
    {
        self.inner.as_str()
    }
}

} // verus!
