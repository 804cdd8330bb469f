//! What the brokerage client is opened with, and what each inquiry carries.

use vstd::prelude::*;

use crate::config::{text_of, Config, ConfigView, Environment};

verus! {

/// An account: its number and its product code.
#[derive(Clone, Debug)]
pub struct Account {
    pub cano: String,
    pub acnt_prdt_cd: String,
}

/// The arguments of the client's constructor, in its order.
#[derive(Clone, Debug)]
pub struct ClientRequest {
    pub environment: Environment,
    pub app_key: String,
    pub app_secret: String,
    pub account: Account,
    pub hts_id: String,
    pub token: Option<String>,
    pub approval_key: Option<String>,
}

/// Mathematical content of a [`ClientRequest`].
pub struct ClientRequestView {
    pub environment: Environment,
    pub app_key: Seq<char>,
    pub app_secret: Seq<char>,
    pub cano: Seq<char>,
    pub acnt_prdt_cd: Seq<char>,
    pub hts_id: Seq<char>,
    pub token: Option<Seq<char>>,
    pub approval_key: Option<Seq<char>>,
}

impl View for ClientRequest {
    type V = ClientRequestView;

    open spec fn view(&self) -> ClientRequestView {
        ClientRequestView {
            environment: self.environment,
            app_key: self.app_key@,
            app_secret: self.app_secret@,
            cano: self.account.cano@,
            acnt_prdt_cd: self.account.acnt_prdt_cd@,
            hts_id: self.hts_id@,
            token: text_of(self.token),
            approval_key: text_of(self.approval_key),
        }
    }
}

/// The request that a configuration stands for: every field handed on as it
/// is, the two account fields as the account, and an absent token or
/// approval key left absent.
pub open spec fn request_for(c: ConfigView) -> ClientRequestView {
    ClientRequestView {
        environment: c.environment,
        app_key: c.app_key,
        app_secret: c.app_secret,
        cano: c.cano,
        acnt_prdt_cd: c.acnt_prdt_cd,
        hts_id: c.hts_id,
        token: c.token,
        approval_key: c.approval_key,
    }
}

/// Prepares the opening of the client for a loaded configuration. Opening
/// itself touches the network and is the caller's part.
pub fn get_api(config: &Config) -> (r: ClientRequest)
    ensures
        r@ == request_for(config@),
{
    let account = Account {
        cano: config.cano().clone(),
        acnt_prdt_cd: config.acnt_prdt_cd().clone(),
    };
    ClientRequest {
        environment: config.environment(),
        app_key: config.app_key().clone(),
        app_secret: config.app_secret().clone(),
        account,
        hts_id: config.hts_id().clone(),
        token: config.token_as_option(),
        approval_key: config.approval_key_as_option(),
    }
}

/// Parameters of a stock balance inquiry.
#[derive(Clone, Debug)]
pub struct BalanceQuery {
    /// After-hours single-price flag.
    pub afhr_flpr_yn: String,
    /// Inquiry type.
    pub inqr_dvsn: String,
    /// Unit-price type.
    pub unpr_dvsn: String,
    /// Whether fund-settlement holdings are included.
    pub fund_sttl_icld_yn: String,
    /// Whether a margin loan is repaid automatically.
    pub fncg_amt_auto_rdpt_yn: String,
    /// Processing type.
    pub prcs_dvsn: String,
    /// Continuation search condition; absent on a first page.
    pub ctx_area_fk100: Option<String>,
    /// Continuation key; absent on a first page.
    pub ctx_area_nk100: Option<String>,
}

/// Mathematical content of a [`BalanceQuery`].
pub struct BalanceQueryView {
    pub afhr_flpr_yn: Seq<char>,
    pub inqr_dvsn: Seq<char>,
    pub unpr_dvsn: Seq<char>,
    pub fund_sttl_icld_yn: Seq<char>,
    pub fncg_amt_auto_rdpt_yn: Seq<char>,
    pub prcs_dvsn: Seq<char>,
    pub ctx_area_fk100: Option<Seq<char>>,
    pub ctx_area_nk100: Option<Seq<char>>,
}

impl View for BalanceQuery {
    type V = BalanceQueryView;

    open spec fn view(&self) -> BalanceQueryView {
        BalanceQueryView {
            afhr_flpr_yn: self.afhr_flpr_yn@,
            inqr_dvsn: self.inqr_dvsn@,
            unpr_dvsn: self.unpr_dvsn@,
            fund_sttl_icld_yn: self.fund_sttl_icld_yn@,
            fncg_amt_auto_rdpt_yn: self.fncg_amt_auto_rdpt_yn@,
            prcs_dvsn: self.prcs_dvsn@,
            ctx_area_fk100: text_of(self.ctx_area_fk100),
            ctx_area_nk100: text_of(self.ctx_area_nk100),
        }
    }
}

/// The balance inquiry that the program makes: per symbol, default prices,
/// prior-day trades included, fund settlement left out, first page.
pub open spec fn first_balance_page() -> BalanceQueryView {
    BalanceQueryView {
        afhr_flpr_yn: "N"@,
        inqr_dvsn: "02"@,
        unpr_dvsn: "01"@,
        fund_sttl_icld_yn: "N"@,
        fncg_amt_auto_rdpt_yn: "N"@,
        prcs_dvsn: "00"@,
        ctx_area_fk100: None,
        ctx_area_nk100: None,
    }
}

/// Builds the balance inquiry of [`first_balance_page`].
pub fn balance_query() -> (q: BalanceQuery)
    ensures
        q@ == first_balance_page(),
{
    BalanceQuery {
        afhr_flpr_yn: "N".to_owned(),
        inqr_dvsn: "02".to_owned(),
        unpr_dvsn: "01".to_owned(),
        fund_sttl_icld_yn: "N".to_owned(),
        fncg_amt_auto_rdpt_yn: "N".to_owned(),
        prcs_dvsn: "00".to_owned(),
        ctx_area_fk100: None,
        ctx_area_nk100: None,
    }
}

/// Parameters of a buying-power inquiry.
#[derive(Clone, Debug)]
pub struct BuyingPowerQuery {
    /// Security code.
    pub pdno: String,
    /// Order unit price; empty for a market order.
    pub ord_unpr: String,
    /// Order type.
    pub ord_dvsn: String,
    /// Whether the CMA valuation is included.
    pub cma_evlu_amt_icld_yn: String,
    /// Whether overseas holdings are included.
    pub ovrs_icld_yn: String,
}

/// Mathematical content of a [`BuyingPowerQuery`].
pub struct BuyingPowerQueryView {
    pub pdno: Seq<char>,
    pub ord_unpr: Seq<char>,
    pub ord_dvsn: Seq<char>,
    pub cma_evlu_amt_icld_yn: Seq<char>,
    pub ovrs_icld_yn: Seq<char>,
}

impl View for BuyingPowerQuery {
    type V = BuyingPowerQueryView;

    open spec fn view(&self) -> BuyingPowerQueryView {
        BuyingPowerQueryView {
            pdno: self.pdno@,
            ord_unpr: self.ord_unpr@,
            ord_dvsn: self.ord_dvsn@,
            cma_evlu_amt_icld_yn: self.cma_evlu_amt_icld_yn@,
            ovrs_icld_yn: self.ovrs_icld_yn@,
        }
    }
}

/// The buying-power inquiry that the program makes: a market order for
/// Samsung Electronics, CMA valuation and overseas holdings left out.
pub open spec fn samsung_market_order() -> BuyingPowerQueryView {
    BuyingPowerQueryView {
        pdno: "005930"@,
        ord_unpr: ""@,
        ord_dvsn: "01"@,
        cma_evlu_amt_icld_yn: "N"@,
        ovrs_icld_yn: "N"@,
    }
}

/// Builds the buying-power inquiry of [`samsung_market_order`].
pub fn buying_power_query() -> (q: BuyingPowerQuery)
    ensures
        q@ == samsung_market_order(),
{
    BuyingPowerQuery {
        pdno: "005930".to_owned(),
        ord_unpr: "".to_owned(),
        ord_dvsn: "01".to_owned(),
        cma_evlu_amt_icld_yn: "N".to_owned(),
        ovrs_icld_yn: "N".to_owned(),
    }
}

} // verus!
