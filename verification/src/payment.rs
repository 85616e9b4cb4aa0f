//! The value attached to an invocation, and the value that came back from the
//! calls made earlier in the same chain of invocations.

use crate::amount::U256;
use crate::error::WorldError;
use vstd::prelude::*;

verus! {

/// The identifier of an issued token: a string of bytes.
///
/// Its view is the sequence of those bytes.
#[derive(Clone, Debug, PartialEq, Eq)]
pub struct TokenId {
    pub bytes: Vec<u8>,
}

impl View for TokenId {
    type V = Seq<u8>;

    open spec fn view(&self) -> Seq<u8> {
        self.bytes@
    }
}

/// What a payment is made in: the native currency, or an issued token.
#[derive(Clone, Debug, PartialEq, Eq)]
pub enum Currency {
    Native,
    Token(TokenId),
}

/// The model of a [`Currency`].
pub enum CurrencyView {
    Native,
    Token(Seq<u8>),
}

impl View for Currency {
    type V = CurrencyView;

    open spec fn view(&self) -> CurrencyView {
        match self {
            Currency::Native => CurrencyView::Native,
            Currency::Token(id) => CurrencyView::Token(id@),
        }
    }
}

/// The value attached to the current invocation: a snapshot, never stored.
///
/// The host reports an invocation to which nothing is attached as the
/// native currency in the amount zero. So a native payment of zero is a
/// missing payment: an entry point that takes the native currency only
/// fails on it.
#[derive(Clone, Debug, PartialEq, Eq)]
pub struct Payment {
    pub currency: Currency,
    pub amount: U256,
}

/// The model of a [`Payment`].
pub struct PaymentView {
    pub currency: CurrencyView,
    pub amount: nat,
}

impl View for Payment {
    type V = PaymentView;

    open spec fn view(&self) -> PaymentView {
        PaymentView { currency: self.currency@, amount: self.amount@ }
    }
}

impl Payment {
    /// Whether nothing is attached: the native currency, in the amount
    /// zero.
    pub open spec fn is_missing(self) -> bool {
        self.currency is Native && self.amount@ == 0
    }

    /// What an entry point that takes the native currency only receives of
    /// this payment: its amount, where it is made in native currency and is
    /// above zero. Where nothing is attached the payment is missing, and
    /// where a token was sent the currency is the wrong one: both fail.
    pub open spec fn spec_native_amount(self) -> Result<U256, WorldError> {
        if !(self.currency is Native) {
            Err(WorldError::NoPayment)
        } else if self.amount@ == 0 {
            Err(WorldError::MissingPayment)
        } else {
            Ok(self.amount)
        }
    }

    /// A payment of `amount` in the native currency.
    pub fn native(amount: U256) -> (p: Payment)
        ensures
            p == (Payment { currency: Currency::Native, amount }),
    {
        Payment { currency: Currency::Native, amount }
    }

    /// A payment of `amount` of the token `token`.
    pub fn token(token: TokenId, amount: U256) -> (p: Payment)
        ensures
            p == (Payment { currency: Currency::Token(token), amount }),
    {
        Payment { currency: Currency::Token(token), amount }
    }

    /// What the host's report of the value attached to an invocation
    /// amounts to: `native` in native currency where no token was
    /// transferred, and else the first token transfer, with its amount.
    pub open spec fn spec_attached(native: U256, transfers: Seq<TokenPayment>) -> Payment {
        if transfers.len() == 0 {
            Payment { currency: Currency::Native, amount: native }
        } else {
            Payment { currency: Currency::Token(transfers[0].token), amount: transfers[0].amount }
        }
    }

    /// The payment that an invocation carries, from what the host reports of
    /// it: the native amount and the token transfers. The host reports no
    /// native amount beside a token transfer, and the native amount zero
    /// where nothing is attached.
    pub fn attached(native: U256, transfers: Vec<TokenPayment>) -> (p: Payment)
        ensures
            p == Payment::spec_attached(native, transfers@),
    {
        let mut transfers = transfers;
        if transfers.len() == 0 {
            Payment { currency: Currency::Native, amount: native }
        } else {
            let first = transfers.remove(0);
            Payment { currency: Currency::Token(first.token), amount: first.amount }
        }
    }

    /// Whether the payment is made in the native currency.
    pub fn is_native(&self) -> (b: bool)
        ensures
            b == (self.currency is Native),
    {
        match &self.currency {
            Currency::Native => true,
            Currency::Token(_) => false,
        }
    }

    /// The amount received by an entry point that takes the native currency
    /// only: the amount of the payment if it is made in native currency and
    /// is above zero, a failure for the missing payment if nothing is
    /// attached, and a failure for the wrong currency if a token was sent.
    pub fn native_amount(&self) -> (r: Result<U256, WorldError>)
        ensures
            r == self.spec_native_amount(),
            r is Ok <==> PaymentRule::ExactNative.admits(self@),
    {
        if PaymentRule::ExactNative.accepts(self) {
            Ok(self.amount)
        } else if self.is_native() {
            Err(WorldError::MissingPayment)
        } else {
            Err(WorldError::NoPayment)
        }
    }
}

/// Which payment an entry point accepts.
#[derive(Clone, Copy, Debug, PartialEq, Eq, Structural)]
pub enum PaymentRule {
    /// No value may be attached.
    NotPayable,
    /// The native currency only, and some of it: an amount above zero.
    ExactNative,
    /// Any currency.
    AnyCurrency,
}

impl PaymentRule {
    /// Whether an entry point under this rule accepts `payment`.
    pub open spec fn admits(self, payment: PaymentView) -> bool {
        match self {
            PaymentRule::NotPayable => payment.currency is Native && payment.amount == 0,
            PaymentRule::ExactNative => payment.currency is Native && payment.amount > 0,
            PaymentRule::AnyCurrency => true,
        }
    }

    /// Decides [`PaymentRule::admits`].
    pub fn accepts(&self, payment: &Payment) -> (b: bool)
        ensures
            b == self.admits(payment@),
    {
        match self {
            PaymentRule::NotPayable => payment.is_native() && payment.amount.is_zero(),
            PaymentRule::ExactNative => payment.is_native() && !payment.amount.is_zero(),
            PaymentRule::AnyCurrency => true,
        }
    }
}

/// One token payment among those that came back: the token, its nonce (zero
/// for a fungible token) and the amount.
#[derive(Clone, Debug, PartialEq, Eq)]
pub struct TokenPayment {
    pub token: TokenId,
    pub nonce: u64,
    pub amount: U256,
}

/// The model of a [`TokenPayment`].
pub struct TokenPaymentView {
    pub token: Seq<u8>,
    pub nonce: u64,
    pub amount: nat,
}

impl View for TokenPayment {
    type V = TokenPaymentView;

    open spec fn view(&self) -> TokenPaymentView {
        TokenPaymentView { token: self.token@, nonce: self.nonce, amount: self.amount@ }
    }
}

/// What the calls made earlier in the same chain of invocations sent back,
/// as the host aggregated it: the total in native currency, and the token
/// payments in the order in which they came.
#[derive(Clone, Debug, PartialEq, Eq)]
pub struct BackTransferBatch {
    pub total_native: U256,
    pub token_payments: Vec<TokenPayment>,
}

/// The model of a [`BackTransferBatch`].
pub struct BackTransferBatchView {
    pub total_native: nat,
    pub token_payments: Seq<TokenPaymentView>,
}

/// The models of the payments in `payments`, in the same order.
pub open spec fn token_payment_views(payments: Seq<TokenPayment>) -> Seq<TokenPaymentView> {
    Seq::new(payments.len(), |i: int| payments[i]@)
}

impl View for BackTransferBatch {
    type V = BackTransferBatchView;

    open spec fn view(&self) -> BackTransferBatchView {
        BackTransferBatchView {
            total_native: self.total_native@,
            token_payments: token_payment_views(self.token_payments@),
        }
    }
}

impl BackTransferBatch {
    /// The batch of an invocation to which nothing came back.
    pub fn empty() -> (b: BackTransferBatch)
        ensures
            b.total_native@ == 0,
            b.token_payments@ == Seq::<TokenPayment>::empty(),
            b@ == (BackTransferBatchView { total_native: 0, token_payments: Seq::empty() }),
    {
        let b = BackTransferBatch { total_native: U256::zero(), token_payments: Vec::new() };
        assert(b@.token_payments =~= Seq::empty());
        b
    }
}

} // verus!
