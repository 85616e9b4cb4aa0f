//! The entry points that a caller can invoke, and the payment that each of
//! them accepts.

use crate::payment::PaymentRule;
use vstd::prelude::*;

verus! {

/// An entry point that a caller can invoke. The callback entry points are
/// not among them: only the host reaches those.
#[derive(Clone, Copy, Debug, PartialEq, Eq, Structural)]
pub enum Endpoint {
    Init,
    Upgrade,
    Fund,
    RequirePositive,
    GetValue,
    GetCaller,
    GetCurrentBlockInfo,
    GetPrevBlockInfo,
    MultiplyByN,
    SetN,
    GetBackTransfers,
    IssueTokenWithoutCallbackV2,
    IssueTokenWithSucceedingCallbackV2,
    IssueTokenWithFailingCallbackV2,
    IssueTokensWithReturnAndSucceedingCallbackV2,
    IssueTokenWithoutCallbackV1,
    IssueTokenWithSucceedingCallbackV1,
    IssueTokenWithFailingCallbackV1,
}

impl Endpoint {
    /// The payment that the entry point accepts: any currency for `fund`,
    /// the native currency only for the one that echoes the amount received
    /// and for those that issue a token, and none for the others.
    pub open spec fn spec_payment_rule(self) -> PaymentRule {
        match self {
            Endpoint::Fund => PaymentRule::AnyCurrency,
            Endpoint::GetValue
            | Endpoint::IssueTokenWithoutCallbackV2
            | Endpoint::IssueTokenWithSucceedingCallbackV2
            | Endpoint::IssueTokenWithFailingCallbackV2
            | Endpoint::IssueTokensWithReturnAndSucceedingCallbackV2
            | Endpoint::IssueTokenWithoutCallbackV1
            | Endpoint::IssueTokenWithSucceedingCallbackV1
            | Endpoint::IssueTokenWithFailingCallbackV1 => PaymentRule::ExactNative,
            _ => PaymentRule::NotPayable,
        }
    }

    /// The name under which callers know the entry point.
    pub open spec fn spec_name(self) -> Seq<char> {
        match self {
            Endpoint::Init => "init"@,
            Endpoint::Upgrade => "upgrade"@,
            Endpoint::Fund => "fund"@,
            Endpoint::RequirePositive => "require_positive"@,
            Endpoint::GetValue => "get_value"@,
            Endpoint::GetCaller => "get_caller"@,
            Endpoint::GetCurrentBlockInfo => "get_current_block_info"@,
            Endpoint::GetPrevBlockInfo => "get_prev_block_info"@,
            Endpoint::MultiplyByN => "multiply_by_n"@,
            Endpoint::SetN => "set_n"@,
            Endpoint::GetBackTransfers => "get_back_transfers"@,
            Endpoint::IssueTokenWithoutCallbackV2 => "issue_token_without_callback_v2"@,
            Endpoint::IssueTokenWithSucceedingCallbackV2 => {
                "issue_token_with_succeeding_callback_v2"@
            },
            Endpoint::IssueTokenWithFailingCallbackV2 => "issue_token_with_failing_callback_v2"@,
            Endpoint::IssueTokensWithReturnAndSucceedingCallbackV2 => {
                "issue_tokens_with_return_and_succeeding_callback_v2"@
            },
            Endpoint::IssueTokenWithoutCallbackV1 => "issue_token_without_callback_v1"@,
            Endpoint::IssueTokenWithSucceedingCallbackV1 => {
                "issue_token_with_succeeding_callback_v1"@
            },
            Endpoint::IssueTokenWithFailingCallbackV1 => "issue_token_with_failing_callback_v1"@,
        }
    }

    /// The payment that the entry point accepts.
    pub fn payment_rule(&self) -> (rule: PaymentRule)
        ensures
            rule == self.spec_payment_rule(),
    {
        match self {
            Endpoint::Fund => PaymentRule::AnyCurrency,
            Endpoint::GetValue
            | Endpoint::IssueTokenWithoutCallbackV2
            | Endpoint::IssueTokenWithSucceedingCallbackV2
            | Endpoint::IssueTokenWithFailingCallbackV2
            | Endpoint::IssueTokensWithReturnAndSucceedingCallbackV2
            | Endpoint::IssueTokenWithoutCallbackV1
            | Endpoint::IssueTokenWithSucceedingCallbackV1
            | Endpoint::IssueTokenWithFailingCallbackV1 => PaymentRule::ExactNative,
            _ => PaymentRule::NotPayable,
        }
    }

    /// The name under which callers know the entry point.
    pub fn name(&self) -> (name: &'static str)
        ensures
            name@ == self.spec_name(),
    {
        match self {
            Endpoint::Init => "init",
            Endpoint::Upgrade => "upgrade",
            Endpoint::Fund => "fund",
            Endpoint::RequirePositive => "require_positive",
            Endpoint::GetValue => "get_value",
            Endpoint::GetCaller => "get_caller",
            Endpoint::GetCurrentBlockInfo => "get_current_block_info",
            Endpoint::GetPrevBlockInfo => "get_prev_block_info",
            Endpoint::MultiplyByN => "multiply_by_n",
            Endpoint::SetN => "set_n",
            Endpoint::GetBackTransfers => "get_back_transfers",
            Endpoint::IssueTokenWithoutCallbackV2 => "issue_token_without_callback_v2",
            Endpoint::IssueTokenWithSucceedingCallbackV2 => {
                "issue_token_with_succeeding_callback_v2"
            },
            Endpoint::IssueTokenWithFailingCallbackV2 => "issue_token_with_failing_callback_v2",
            Endpoint::IssueTokensWithReturnAndSucceedingCallbackV2 => {
                "issue_tokens_with_return_and_succeeding_callback_v2"
            },
            Endpoint::IssueTokenWithoutCallbackV1 => "issue_token_without_callback_v1",
            Endpoint::IssueTokenWithSucceedingCallbackV1 => {
                "issue_token_with_succeeding_callback_v1"
            },
            Endpoint::IssueTokenWithFailingCallbackV1 => "issue_token_with_failing_callback_v1",
        }
    }
}

} // verus!
