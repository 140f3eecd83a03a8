//! SEC filing form types and their metadata.
//!
//! [`FormType`] names the filing forms that the library knows. Each form has
//! one canonical label; [`FormType::from_str`] also reads the common
//! spellings without dash or space, in any case.

use crate::errors::EdgarError;
use crate::text::{chars_of, ends_with, is_text, string_of, trim, trimmed};
use vstd::prelude::*;
use vstd::string::StringExecFns;

verus! {

/// The upper-case equivalent of a string by the Unicode rules, as
/// `str::to_uppercase` computes it.
pub uninterp spec fn uppercase(s: Seq<char>) -> Seq<char>;

/// `str::to_uppercase`: the upper-case equivalent of `s` as a new string.
/// The contract only names the result.
#[verifier::external_body]
fn to_uppercase(s: &str) -> (r: String)
    ensures
        r@ == uppercase(s@),
{
    s.to_uppercase()
}

/// SEC filing form types.
#[allow(clippy::enum_variant_names)]
#[derive(Debug, Clone, Copy, PartialEq, Eq, Hash, Structural)]
pub enum FormType {
    /// Annual report (10-K).
    TenK,
    /// Amended annual report (10-K/A).
    TenKA,
    /// Quarterly report (10-Q).
    TenQ,
    /// Amended quarterly report (10-Q/A).
    TenQA,
    /// Current report (8-K).
    EightK,
    /// Amended current report (8-K/A).
    EightKA,
    /// Definitive proxy statement.
    Def14A,
    /// Definitive consent solicitation.
    Def14C,
    /// Definitive merger proxy.
    DefM14A,
    /// Amended definitive merger proxy.
    DefM14AA,
    /// Definitive contested proxy.
    DefC14A,
    /// Amended definitive contested proxy.
    DefC14AA,
    /// Definitive contested consent.
    DefC14C,
    /// Amended definitive contested consent.
    DefC14CA,
    /// IPO registration statement.
    S1,
    /// Amended S-1.
    S1A,
    /// Shelf registration for existing public companies.
    S3,
    /// Amended S-3.
    S3A,
    /// Business combination registration.
    S4,
    /// Amended S-4.
    S4A,
    /// Employee benefit plan securities.
    S8,
    /// Amended S-8.
    S8A,
    /// REIT registration.
    S11,
    /// Amended S-11.
    S11A,
    /// Small business registration.
    SB1,
    /// Small business registration.
    SB2,
    /// Amended SB-1.
    SB1A,
    /// Amended SB-2.
    SB2A,
    /// Annual report for foreign issuers.
    TwentyF,
    /// Amended 20-F.
    TwentyFA,
    /// Current report for foreign issuers.
    SixK,
    /// Amended 6-K.
    SixKA,
    /// Canadian annual report.
    FortyF,
    /// Amended 40-F.
    FortyFA,
    /// Registration of Canadian securities.
    FortyFR12B,
    /// Amended 40-FR12B.
    FortyFR12BA,
    /// Registration termination for Canadian securities.
    FortyFR12G,
    /// Amended 40-FR12G.
    FortyFR12GA,
    /// Foreign IPO registration.
    F1,
    /// Amended F-1.
    F1A,
    /// Foreign shelf registration.
    F3,
    /// Foreign delayed shelf.
    F3D,
    /// Foreign business combination.
    F4,
    /// Foreign business combination (effective).
    F4EF,
    /// Foreign depository receipts.
    F6,
    /// Foreign depository receipts (effective).
    F6EF,
    /// Employee benefit plan annual report.
    ElevenK,
    /// Amended 11-K.
    ElevenKA,
    /// Institutional holdings report.
    ThirteenFHr,
    /// Amended 13F-HR.
    ThirteenFHrA,
    /// Institutional holdings notice.
    ThirteenFNT,
    /// Amended 13F-NT.
    ThirteenFNTA,
    /// 5%+ ownership report.
    Sc13D,
    /// Amended SC 13D.
    Sc13DA,
    /// Passive investor 5%+ ownership.
    Sc13G,
    /// Amended SC 13G.
    Sc13GA,
    /// Initial insider ownership.
    Form3,
    /// Amended Form 3.
    Form3A,
    /// Change in insider ownership.
    Form4,
    /// Amended Form 4.
    Form4A,
    /// Annual insider ownership.
    Form5,
    /// Amended Form 5.
    Form5A,
    /// Prospectus filed under 424(b)(5).
    FourTwoFourB5,
    /// Merger prospectus.
    FourTwoFive,
    /// Post-effective amendment.
    PosEx,
    /// Post-effective under 462(b).
    Pos462B,
    /// Post-effective under 462(c).
    Pos462C,
    /// Automatic shelf registration post-effective.
    PosAsr,
    /// Sale of restricted securities.
    OneFortyFour,
    /// Amended 144.
    OneFortyFourA,
    /// Exempt offering.
    FormD,
    /// Late 10-K notification.
    NT10K,
    /// Amended NT 10-K.
    NT10KA,
    /// Late 10-Q notification.
    NT10Q,
    /// Amended NT 10-Q.
    NT10QA,
    /// Late 11-K notification.
    NT11K,
    /// Late foreign issuer notification.
    NT15D2,
    /// Investment company filing.
    TwentyFive,
    /// Amended 25.
    TwentyFiveA,
    /// Registration withdrawal.
    Rw,
    /// Registration withdrawal request.
    RwWd,
}

/// Another name of [`FormType`].
pub type SecFormType = FormType;

/// Filing category classification.
#[derive(Debug, Clone, Copy, PartialEq, Eq, Structural)]
pub enum FilingCategory {
    /// Periodic reports (10-K, 10-Q, etc.).
    PeriodicReport,
    /// Current reports (8-K, 6-K).
    CurrentReport,
    /// Proxy statements.
    ProxyStatement,
    /// Registration statements.
    Registration,
    /// Beneficial ownership reports.
    BeneficialOwnership,
    /// Insider trading reports.
    InsiderTrading,
    /// Institutional holdings reports.
    InstitutionalHoldings,
    /// Foreign issuer filings.
    ForeignIssuer,
    /// Securities offering documents.
    Offering,
    /// Late filing notifications.
    Notification,
    /// Other filing types.
    Other,
}

/// Filing frequency classification.
#[derive(Debug, Clone, Copy, PartialEq, Eq, Structural)]
pub enum FilingFrequency {
    /// Filed annually.
    Annual,
    /// Filed quarterly.
    Quarterly,
    /// Filed semi-annually.
    SemiAnnual,
    /// Filed when events occur.
    EventDriven,
    /// Filed continuously.
    Ongoing,
    /// Filed as needed.
    AsNeeded,
}

/// The form that an upper-case spelling names.
pub open spec fn form_named(up: Seq<char>) -> Option<FormType> {
    if up == "10-K"@ || up == "10K"@ {
        Some(FormType::TenK)
    } else if up == "10-K/A"@ || up == "10K/A"@ {
        Some(FormType::TenKA)
    } else if up == "10-Q"@ || up == "10Q"@ {
        Some(FormType::TenQ)
    } else if up == "10-Q/A"@ || up == "10Q/A"@ {
        Some(FormType::TenQA)
    } else if up == "8-K"@ || up == "8K"@ {
        Some(FormType::EightK)
    } else if up == "8-K/A"@ || up == "8K/A"@ {
        Some(FormType::EightKA)
    } else if up == "DEF 14A"@ || up == "DEF14A"@ {
        Some(FormType::Def14A)
    } else if up == "DEF 14C"@ || up == "DEF14C"@ {
        Some(FormType::Def14C)
    } else if up == "S-1"@ || up == "S1"@ {
        Some(FormType::S1)
    } else if up == "S-1/A"@ || up == "S1/A"@ {
        Some(FormType::S1A)
    } else if up == "S-3"@ || up == "S3"@ {
        Some(FormType::S3)
    } else if up == "S-3/A"@ || up == "S3/A"@ {
        Some(FormType::S3A)
    } else if up == "S-4"@ || up == "S4"@ {
        Some(FormType::S4)
    } else if up == "S-4/A"@ || up == "S4/A"@ {
        Some(FormType::S4A)
    } else if up == "S-8"@ || up == "S8"@ {
        Some(FormType::S8)
    } else if up == "S-8/A"@ || up == "S8/A"@ {
        Some(FormType::S8A)
    } else if up == "20-F"@ || up == "20F"@ {
        Some(FormType::TwentyF)
    } else if up == "20-F/A"@ || up == "20F/A"@ {
        Some(FormType::TwentyFA)
    } else if up == "6-K"@ || up == "6K"@ {
        Some(FormType::SixK)
    } else if up == "6-K/A"@ || up == "6K/A"@ {
        Some(FormType::SixKA)
    } else if up == "11-K"@ || up == "11K"@ {
        Some(FormType::ElevenK)
    } else if up == "11-K/A"@ || up == "11K/A"@ {
        Some(FormType::ElevenKA)
    } else if up == "13F-HR"@ || up == "13FHR"@ {
        Some(FormType::ThirteenFHr)
    } else if up == "13F-HR/A"@ || up == "13FHR/A"@ {
        Some(FormType::ThirteenFHrA)
    } else if up == "13F-NT"@ {
        Some(FormType::ThirteenFNT)
    } else if up == "13F-NT/A"@ {
        Some(FormType::ThirteenFNTA)
    } else if up == "144"@ {
        Some(FormType::OneFortyFour)
    } else if up == "144/A"@ {
        Some(FormType::OneFortyFourA)
    } else if up == "SC 13D"@ || up == "SC13D"@ {
        Some(FormType::Sc13D)
    } else if up == "SC 13D/A"@ || up == "SC13D/A"@ {
        Some(FormType::Sc13DA)
    } else if up == "SC 13G"@ || up == "SC13G"@ {
        Some(FormType::Sc13G)
    } else if up == "SC 13G/A"@ || up == "SC13G/A"@ {
        Some(FormType::Sc13GA)
    } else if up == "3"@ {
        Some(FormType::Form3)
    } else if up == "3/A"@ {
        Some(FormType::Form3A)
    } else if up == "4"@ {
        Some(FormType::Form4)
    } else if up == "4/A"@ {
        Some(FormType::Form4A)
    } else if up == "5"@ {
        Some(FormType::Form5)
    } else if up == "5/A"@ {
        Some(FormType::Form5A)
    } else if up == "424B5"@ {
        Some(FormType::FourTwoFourB5)
    } else if up == "425"@ {
        Some(FormType::FourTwoFive)
    } else if up == "F-1"@ || up == "F1"@ {
        Some(FormType::F1)
    } else if up == "F-1/A"@ || up == "F1/A"@ {
        Some(FormType::F1A)
    } else if up == "F-3"@ || up == "F3"@ {
        Some(FormType::F3)
    } else if up == "F-3D"@ || up == "F3D"@ {
        Some(FormType::F3D)
    } else if up == "F-4"@ || up == "F4"@ {
        Some(FormType::F4)
    } else if up == "F-4EF"@ || up == "F4EF"@ {
        Some(FormType::F4EF)
    } else if up == "F-6"@ || up == "F6"@ {
        Some(FormType::F6)
    } else if up == "F-6EF"@ || up == "F6EF"@ {
        Some(FormType::F6EF)
    } else if up == "S-11"@ || up == "S11"@ {
        Some(FormType::S11)
    } else if up == "S-11/A"@ || up == "S11/A"@ {
        Some(FormType::S11A)
    } else if up == "SB-1"@ || up == "SB1"@ {
        Some(FormType::SB1)
    } else if up == "SB-2"@ || up == "SB2"@ {
        Some(FormType::SB2)
    } else if up == "SB-1/A"@ || up == "SB1/A"@ {
        Some(FormType::SB1A)
    } else if up == "SB-2/A"@ || up == "SB2/A"@ {
        Some(FormType::SB2A)
    } else if up == "D"@ {
        Some(FormType::FormD)
    } else if up == "DEFM14A"@ {
        Some(FormType::DefM14A)
    } else if up == "DEFM14A/A"@ || up == "DEFM14AA"@ {
        Some(FormType::DefM14AA)
    } else if up == "DEFC14A"@ {
        Some(FormType::DefC14A)
    } else if up == "DEFC14A/A"@ || up == "DEFC14AA"@ {
        Some(FormType::DefC14AA)
    } else if up == "DEFC14C"@ {
        Some(FormType::DefC14C)
    } else if up == "DEFC14C/A"@ || up == "DEFC14CA"@ {
        Some(FormType::DefC14CA)
    } else if up == "40-F"@ || up == "40F"@ {
        Some(FormType::FortyF)
    } else if up == "40-F/A"@ || up == "40F/A"@ {
        Some(FormType::FortyFA)
    } else if up == "40-FR12B"@ || up == "40FR12B"@ {
        Some(FormType::FortyFR12B)
    } else if up == "40-FR12B/A"@ || up == "40FR12BA"@ {
        Some(FormType::FortyFR12BA)
    } else if up == "40-FR12G"@ || up == "40FR12G"@ {
        Some(FormType::FortyFR12G)
    } else if up == "40-FR12G/A"@ || up == "40FR12GA"@ {
        Some(FormType::FortyFR12GA)
    } else if up == "POS EX"@ {
        Some(FormType::PosEx)
    } else if up == "POS 462B"@ {
        Some(FormType::Pos462B)
    } else if up == "POS 462C"@ {
        Some(FormType::Pos462C)
    } else if up == "POS ASR"@ {
        Some(FormType::PosAsr)
    } else if up == "NT 10-K"@ {
        Some(FormType::NT10K)
    } else if up == "NT 10-K/A"@ || up == "NT10KA"@ {
        Some(FormType::NT10KA)
    } else if up == "NT 10-Q"@ {
        Some(FormType::NT10Q)
    } else if up == "NT 10-Q/A"@ || up == "NT10QA"@ {
        Some(FormType::NT10QA)
    } else if up == "NT 11-K"@ || up == "NT11K"@ {
        Some(FormType::NT11K)
    } else if up == "NT15D2"@ {
        Some(FormType::NT15D2)
    } else if up == "25"@ {
        Some(FormType::TwentyFive)
    } else if up == "25/A"@ {
        Some(FormType::TwentyFiveA)
    } else if up == "RW"@ {
        Some(FormType::Rw)
    } else if up == "RW/WD"@ {
        Some(FormType::RwWd)
    } else {
        None
    }
}

impl FormType {
    /// The canonical label of the form.
    pub open spec fn label(self) -> Seq<char> {
        match self {
            FormType::TenK => "10-K"@,
            FormType::TenKA => "10-K/A"@,
            FormType::TenQ => "10-Q"@,
            FormType::TenQA => "10-Q/A"@,
            FormType::EightK => "8-K"@,
            FormType::EightKA => "8-K/A"@,
            FormType::Def14A => "DEF 14A"@,
            FormType::Def14C => "DEF 14C"@,
            FormType::DefM14A => "DEFM14A"@,
            FormType::DefM14AA => "DEFM14A/A"@,
            FormType::DefC14A => "DEFC14A"@,
            FormType::DefC14AA => "DEFC14A/A"@,
            FormType::DefC14C => "DEFC14C"@,
            FormType::DefC14CA => "DEFC14C/A"@,
            FormType::S1 => "S-1"@,
            FormType::S1A => "S-1/A"@,
            FormType::S3 => "S-3"@,
            FormType::S3A => "S-3/A"@,
            FormType::S4 => "S-4"@,
            FormType::S4A => "S-4/A"@,
            FormType::S8 => "S-8"@,
            FormType::S8A => "S-8/A"@,
            FormType::S11 => "S-11"@,
            FormType::S11A => "S-11/A"@,
            FormType::SB1 => "SB-1"@,
            FormType::SB2 => "SB-2"@,
            FormType::SB1A => "SB-1/A"@,
            FormType::SB2A => "SB-2/A"@,
            FormType::TwentyF => "20-F"@,
            FormType::TwentyFA => "20-F/A"@,
            FormType::SixK => "6-K"@,
            FormType::SixKA => "6-K/A"@,
            FormType::FortyF => "40-F"@,
            FormType::FortyFA => "40-F/A"@,
            FormType::FortyFR12B => "40-FR12B"@,
            FormType::FortyFR12BA => "40-FR12B/A"@,
            FormType::FortyFR12G => "40-FR12G"@,
            FormType::FortyFR12GA => "40-FR12G/A"@,
            FormType::F1 => "F-1"@,
            FormType::F1A => "F-1/A"@,
            FormType::F3 => "F-3"@,
            FormType::F3D => "F-3D"@,
            FormType::F4 => "F-4"@,
            FormType::F4EF => "F-4EF"@,
            FormType::F6 => "F-6"@,
            FormType::F6EF => "F-6EF"@,
            FormType::ElevenK => "11-K"@,
            FormType::ElevenKA => "11-K/A"@,
            FormType::ThirteenFHr => "13F-HR"@,
            FormType::ThirteenFHrA => "13F-HR/A"@,
            FormType::ThirteenFNT => "13F-NT"@,
            FormType::ThirteenFNTA => "13F-NT/A"@,
            FormType::Sc13D => "SC 13D"@,
            FormType::Sc13DA => "SC 13D/A"@,
            FormType::Sc13G => "SC 13G"@,
            FormType::Sc13GA => "SC 13G/A"@,
            FormType::Form3 => "3"@,
            FormType::Form3A => "3/A"@,
            FormType::Form4 => "4"@,
            FormType::Form4A => "4/A"@,
            FormType::Form5 => "5"@,
            FormType::Form5A => "5/A"@,
            FormType::FourTwoFourB5 => "424B5"@,
            FormType::FourTwoFive => "425"@,
            FormType::PosEx => "POS EX"@,
            FormType::Pos462B => "POS 462B"@,
            FormType::Pos462C => "POS 462C"@,
            FormType::PosAsr => "POS ASR"@,
            FormType::OneFortyFour => "144"@,
            FormType::OneFortyFourA => "144/A"@,
            FormType::FormD => "D"@,
            FormType::NT10K => "NT 10-K"@,
            FormType::NT10KA => "NT 10-K/A"@,
            FormType::NT10Q => "NT 10-Q"@,
            FormType::NT10QA => "NT 10-Q/A"@,
            FormType::NT11K => "NT 11-K"@,
            FormType::NT15D2 => "NT 15D2"@,
            FormType::TwentyFive => "25"@,
            FormType::TwentyFiveA => "25/A"@,
            FormType::Rw => "RW"@,
            FormType::RwWd => "RW/Wd"@,
        }
    }

    /// Whether the form amends another.
    pub open spec fn amended(self) -> bool {
        match self {
            FormType::TenKA
            | FormType::TenQA
            | FormType::EightKA
            | FormType::S1A
            | FormType::S3A
            | FormType::S4A
            | FormType::S8A
            | FormType::S11A
            | FormType::SB1A
            | FormType::SB2A
            | FormType::TwentyFA
            | FormType::SixKA
            | FormType::ElevenKA
            | FormType::FortyFA
            | FormType::FortyFR12BA
            | FormType::FortyFR12GA
            | FormType::ThirteenFHrA
            | FormType::ThirteenFNTA
            | FormType::Sc13DA
            | FormType::Sc13GA
            | FormType::Form3A
            | FormType::Form4A
            | FormType::Form5A
            | FormType::F1A
            | FormType::OneFortyFourA
            | FormType::DefM14AA
            | FormType::DefC14AA
            | FormType::DefC14CA
            | FormType::NT10KA
            | FormType::NT10QA
            | FormType::TwentyFiveA => true,
            _ => false,
        }
    }

    /// The form that an amendment amends; any other form itself.
    pub open spec fn base(self) -> FormType {
        match self {
            FormType::TenKA => FormType::TenK,
            FormType::TenQA => FormType::TenQ,
            FormType::EightKA => FormType::EightK,
            FormType::S1A => FormType::S1,
            FormType::S3A => FormType::S3,
            FormType::S4A => FormType::S4,
            FormType::S8A => FormType::S8,
            FormType::S11A => FormType::S11,
            FormType::SB1A => FormType::SB1,
            FormType::SB2A => FormType::SB2,
            FormType::TwentyFA => FormType::TwentyF,
            FormType::SixKA => FormType::SixK,
            FormType::ElevenKA => FormType::ElevenK,
            FormType::FortyFA => FormType::FortyF,
            FormType::FortyFR12BA => FormType::FortyFR12B,
            FormType::FortyFR12GA => FormType::FortyFR12G,
            FormType::ThirteenFHrA => FormType::ThirteenFHr,
            FormType::ThirteenFNTA => FormType::ThirteenFNT,
            FormType::Sc13DA => FormType::Sc13D,
            FormType::Sc13GA => FormType::Sc13G,
            FormType::Form3A => FormType::Form3,
            FormType::Form4A => FormType::Form4,
            FormType::Form5A => FormType::Form5,
            FormType::F1A => FormType::F1,
            FormType::OneFortyFourA => FormType::OneFortyFour,
            FormType::DefM14AA => FormType::DefM14A,
            FormType::DefC14AA => FormType::DefC14A,
            FormType::DefC14CA => FormType::DefC14C,
            FormType::NT10KA => FormType::NT10K,
            FormType::NT10QA => FormType::NT10Q,
            FormType::TwentyFiveA => FormType::TwentyFive,
            other => other,
        }
    }

    /// The category of the form; that of the base form for an amendment.
    pub open spec fn category_of(self) -> FilingCategory {
        match self.base() {
            FormType::TenK
            | FormType::TenQ
            | FormType::TwentyF => FilingCategory::PeriodicReport,
            FormType::EightK
            | FormType::SixK => FilingCategory::CurrentReport,
            FormType::Def14A
            | FormType::Def14C
            | FormType::DefM14A
            | FormType::DefC14A
            | FormType::DefC14C => FilingCategory::ProxyStatement,
            FormType::S1
            | FormType::S3
            | FormType::S4
            | FormType::S8
            | FormType::S11
            | FormType::SB1
            | FormType::SB2
            | FormType::F1
            | FormType::F3
            | FormType::F4
            | FormType::F6 => FilingCategory::Registration,
            FormType::Sc13D
            | FormType::Sc13G => FilingCategory::BeneficialOwnership,
            FormType::Form3
            | FormType::Form4
            | FormType::Form5 => FilingCategory::InsiderTrading,
            FormType::ThirteenFHr
            | FormType::ThirteenFNT => FilingCategory::InstitutionalHoldings,
            FormType::FortyF
            | FormType::FortyFR12B
            | FormType::FortyFR12G => FilingCategory::ForeignIssuer,
            FormType::FourTwoFourB5
            | FormType::FourTwoFive
            | FormType::PosEx
            | FormType::Pos462B
            | FormType::Pos462C
            | FormType::PosAsr
            | FormType::OneFortyFour
            | FormType::FormD => FilingCategory::Offering,
            FormType::NT10K
            | FormType::NT10Q
            | FormType::NT11K
            | FormType::NT15D2 => FilingCategory::Notification,
            _ => FilingCategory::Other,
        }
    }

    /// How often the form is typically filed; for an amendment, how often
    /// its base form is.
    pub open spec fn frequency_of(self) -> FilingFrequency {
        match self.base() {
            FormType::TenK
            | FormType::TwentyF
            | FormType::ElevenK => FilingFrequency::Annual,
            FormType::TenQ => FilingFrequency::Quarterly,
            FormType::SixK => FilingFrequency::SemiAnnual,
            FormType::EightK
            | FormType::Form4 => FilingFrequency::EventDriven,
            FormType::Form3
            | FormType::Form5 => FilingFrequency::AsNeeded,
            FormType::ThirteenFHr => FilingFrequency::Quarterly,
            _ => FilingFrequency::AsNeeded,
        }
    }

    /// The canonical label of the form.
    pub fn as_str(&self) -> (r: &'static str)
        ensures
            r@ == self.label(),
    {
        match self {
            FormType::TenK => "10-K",
            FormType::TenKA => "10-K/A",
            FormType::TenQ => "10-Q",
            FormType::TenQA => "10-Q/A",
            FormType::EightK => "8-K",
            FormType::EightKA => "8-K/A",
            FormType::Def14A => "DEF 14A",
            FormType::Def14C => "DEF 14C",
            FormType::DefM14A => "DEFM14A",
            FormType::DefM14AA => "DEFM14A/A",
            FormType::DefC14A => "DEFC14A",
            FormType::DefC14AA => "DEFC14A/A",
            FormType::DefC14C => "DEFC14C",
            FormType::DefC14CA => "DEFC14C/A",
            FormType::S1 => "S-1",
            FormType::S1A => "S-1/A",
            FormType::S3 => "S-3",
            FormType::S3A => "S-3/A",
            FormType::S4 => "S-4",
            FormType::S4A => "S-4/A",
            FormType::S8 => "S-8",
            FormType::S8A => "S-8/A",
            FormType::S11 => "S-11",
            FormType::S11A => "S-11/A",
            FormType::SB1 => "SB-1",
            FormType::SB2 => "SB-2",
            FormType::SB1A => "SB-1/A",
            FormType::SB2A => "SB-2/A",
            FormType::TwentyF => "20-F",
            FormType::TwentyFA => "20-F/A",
            FormType::SixK => "6-K",
            FormType::SixKA => "6-K/A",
            FormType::FortyF => "40-F",
            FormType::FortyFA => "40-F/A",
            FormType::FortyFR12B => "40-FR12B",
            FormType::FortyFR12BA => "40-FR12B/A",
            FormType::FortyFR12G => "40-FR12G",
            FormType::FortyFR12GA => "40-FR12G/A",
            FormType::F1 => "F-1",
            FormType::F1A => "F-1/A",
            FormType::F3 => "F-3",
            FormType::F3D => "F-3D",
            FormType::F4 => "F-4",
            FormType::F4EF => "F-4EF",
            FormType::F6 => "F-6",
            FormType::F6EF => "F-6EF",
            FormType::ElevenK => "11-K",
            FormType::ElevenKA => "11-K/A",
            FormType::ThirteenFHr => "13F-HR",
            FormType::ThirteenFHrA => "13F-HR/A",
            FormType::ThirteenFNT => "13F-NT",
            FormType::ThirteenFNTA => "13F-NT/A",
            FormType::Sc13D => "SC 13D",
            FormType::Sc13DA => "SC 13D/A",
            FormType::Sc13G => "SC 13G",
            FormType::Sc13GA => "SC 13G/A",
            FormType::Form3 => "3",
            FormType::Form3A => "3/A",
            FormType::Form4 => "4",
            FormType::Form4A => "4/A",
            FormType::Form5 => "5",
            FormType::Form5A => "5/A",
            FormType::FourTwoFourB5 => "424B5",
            FormType::FourTwoFive => "425",
            FormType::PosEx => "POS EX",
            FormType::Pos462B => "POS 462B",
            FormType::Pos462C => "POS 462C",
            FormType::PosAsr => "POS ASR",
            FormType::OneFortyFour => "144",
            FormType::OneFortyFourA => "144/A",
            FormType::FormD => "D",
            FormType::NT10K => "NT 10-K",
            FormType::NT10KA => "NT 10-K/A",
            FormType::NT10Q => "NT 10-Q",
            FormType::NT10QA => "NT 10-Q/A",
            FormType::NT11K => "NT 11-K",
            FormType::NT15D2 => "NT 15D2",
            FormType::TwentyFive => "25",
            FormType::TwentyFiveA => "25/A",
            FormType::Rw => "RW",
            FormType::RwWd => "RW/Wd",
        }
    }

    /// The canonical label of the form, as a new string.
    pub fn to_string(&self) -> (r: String)
        ensures
            r@ == self.label(),
    {
        String::from_str(self.as_str())
    }

    /// The form that an upper-case spelling names, if it names one.
    pub fn from_canonical(up: &str) -> (r: Option<FormType>)
        ensures
            r == form_named(up@),
    {
        let v = chars_of(up);
        if is_text(&v, "10-K") || is_text(&v, "10K") {
            Some(FormType::TenK)
        } else if is_text(&v, "10-K/A") || is_text(&v, "10K/A") {
            Some(FormType::TenKA)
        } else if is_text(&v, "10-Q") || is_text(&v, "10Q") {
            Some(FormType::TenQ)
        } else if is_text(&v, "10-Q/A") || is_text(&v, "10Q/A") {
            Some(FormType::TenQA)
        } else if is_text(&v, "8-K") || is_text(&v, "8K") {
            Some(FormType::EightK)
        } else if is_text(&v, "8-K/A") || is_text(&v, "8K/A") {
            Some(FormType::EightKA)
        } else if is_text(&v, "DEF 14A") || is_text(&v, "DEF14A") {
            Some(FormType::Def14A)
        } else if is_text(&v, "DEF 14C") || is_text(&v, "DEF14C") {
            Some(FormType::Def14C)
        } else if is_text(&v, "S-1") || is_text(&v, "S1") {
            Some(FormType::S1)
        } else if is_text(&v, "S-1/A") || is_text(&v, "S1/A") {
            Some(FormType::S1A)
        } else if is_text(&v, "S-3") || is_text(&v, "S3") {
            Some(FormType::S3)
        } else if is_text(&v, "S-3/A") || is_text(&v, "S3/A") {
            Some(FormType::S3A)
        } else if is_text(&v, "S-4") || is_text(&v, "S4") {
            Some(FormType::S4)
        } else if is_text(&v, "S-4/A") || is_text(&v, "S4/A") {
            Some(FormType::S4A)
        } else if is_text(&v, "S-8") || is_text(&v, "S8") {
            Some(FormType::S8)
        } else if is_text(&v, "S-8/A") || is_text(&v, "S8/A") {
            Some(FormType::S8A)
        } else if is_text(&v, "20-F") || is_text(&v, "20F") {
            Some(FormType::TwentyF)
        } else if is_text(&v, "20-F/A") || is_text(&v, "20F/A") {
            Some(FormType::TwentyFA)
        } else if is_text(&v, "6-K") || is_text(&v, "6K") {
            Some(FormType::SixK)
        } else if is_text(&v, "6-K/A") || is_text(&v, "6K/A") {
            Some(FormType::SixKA)
        } else if is_text(&v, "11-K") || is_text(&v, "11K") {
            Some(FormType::ElevenK)
        } else if is_text(&v, "11-K/A") || is_text(&v, "11K/A") {
            Some(FormType::ElevenKA)
        } else if is_text(&v, "13F-HR") || is_text(&v, "13FHR") {
            Some(FormType::ThirteenFHr)
        } else if is_text(&v, "13F-HR/A") || is_text(&v, "13FHR/A") {
            Some(FormType::ThirteenFHrA)
        } else if is_text(&v, "13F-NT") {
            Some(FormType::ThirteenFNT)
        } else if is_text(&v, "13F-NT/A") {
            Some(FormType::ThirteenFNTA)
        } else if is_text(&v, "144") {
            Some(FormType::OneFortyFour)
        } else if is_text(&v, "144/A") {
            Some(FormType::OneFortyFourA)
        } else if is_text(&v, "SC 13D") || is_text(&v, "SC13D") {
            Some(FormType::Sc13D)
        } else if is_text(&v, "SC 13D/A") || is_text(&v, "SC13D/A") {
            Some(FormType::Sc13DA)
        } else if is_text(&v, "SC 13G") || is_text(&v, "SC13G") {
            Some(FormType::Sc13G)
        } else if is_text(&v, "SC 13G/A") || is_text(&v, "SC13G/A") {
            Some(FormType::Sc13GA)
        } else if is_text(&v, "3") {
            Some(FormType::Form3)
        } else if is_text(&v, "3/A") {
            Some(FormType::Form3A)
        } else if is_text(&v, "4") {
            Some(FormType::Form4)
        } else if is_text(&v, "4/A") {
            Some(FormType::Form4A)
        } else if is_text(&v, "5") {
            Some(FormType::Form5)
        } else if is_text(&v, "5/A") {
            Some(FormType::Form5A)
        } else if is_text(&v, "424B5") {
            Some(FormType::FourTwoFourB5)
        } else if is_text(&v, "425") {
            Some(FormType::FourTwoFive)
        } else if is_text(&v, "F-1") || is_text(&v, "F1") {
            Some(FormType::F1)
        } else if is_text(&v, "F-1/A") || is_text(&v, "F1/A") {
            Some(FormType::F1A)
        } else if is_text(&v, "F-3") || is_text(&v, "F3") {
            Some(FormType::F3)
        } else if is_text(&v, "F-3D") || is_text(&v, "F3D") {
            Some(FormType::F3D)
        } else if is_text(&v, "F-4") || is_text(&v, "F4") {
            Some(FormType::F4)
        } else if is_text(&v, "F-4EF") || is_text(&v, "F4EF") {
            Some(FormType::F4EF)
        } else if is_text(&v, "F-6") || is_text(&v, "F6") {
            Some(FormType::F6)
        } else if is_text(&v, "F-6EF") || is_text(&v, "F6EF") {
            Some(FormType::F6EF)
        } else if is_text(&v, "S-11") || is_text(&v, "S11") {
            Some(FormType::S11)
        } else if is_text(&v, "S-11/A") || is_text(&v, "S11/A") {
            Some(FormType::S11A)
        } else if is_text(&v, "SB-1") || is_text(&v, "SB1") {
            Some(FormType::SB1)
        } else if is_text(&v, "SB-2") || is_text(&v, "SB2") {
            Some(FormType::SB2)
        } else if is_text(&v, "SB-1/A") || is_text(&v, "SB1/A") {
            Some(FormType::SB1A)
        } else if is_text(&v, "SB-2/A") || is_text(&v, "SB2/A") {
            Some(FormType::SB2A)
        } else if is_text(&v, "D") {
            Some(FormType::FormD)
        } else if is_text(&v, "DEFM14A") {
            Some(FormType::DefM14A)
        } else if is_text(&v, "DEFM14A/A") || is_text(&v, "DEFM14AA") {
            Some(FormType::DefM14AA)
        } else if is_text(&v, "DEFC14A") {
            Some(FormType::DefC14A)
        } else if is_text(&v, "DEFC14A/A") || is_text(&v, "DEFC14AA") {
            Some(FormType::DefC14AA)
        } else if is_text(&v, "DEFC14C") {
            Some(FormType::DefC14C)
        } else if is_text(&v, "DEFC14C/A") || is_text(&v, "DEFC14CA") {
            Some(FormType::DefC14CA)
        } else if is_text(&v, "40-F") || is_text(&v, "40F") {
            Some(FormType::FortyF)
        } else if is_text(&v, "40-F/A") || is_text(&v, "40F/A") {
            Some(FormType::FortyFA)
        } else if is_text(&v, "40-FR12B") || is_text(&v, "40FR12B") {
            Some(FormType::FortyFR12B)
        } else if is_text(&v, "40-FR12B/A") || is_text(&v, "40FR12BA") {
            Some(FormType::FortyFR12BA)
        } else if is_text(&v, "40-FR12G") || is_text(&v, "40FR12G") {
            Some(FormType::FortyFR12G)
        } else if is_text(&v, "40-FR12G/A") || is_text(&v, "40FR12GA") {
            Some(FormType::FortyFR12GA)
        } else if is_text(&v, "POS EX") {
            Some(FormType::PosEx)
        } else if is_text(&v, "POS 462B") {
            Some(FormType::Pos462B)
        } else if is_text(&v, "POS 462C") {
            Some(FormType::Pos462C)
        } else if is_text(&v, "POS ASR") {
            Some(FormType::PosAsr)
        } else if is_text(&v, "NT 10-K") {
            Some(FormType::NT10K)
        } else if is_text(&v, "NT 10-K/A") || is_text(&v, "NT10KA") {
            Some(FormType::NT10KA)
        } else if is_text(&v, "NT 10-Q") {
            Some(FormType::NT10Q)
        } else if is_text(&v, "NT 10-Q/A") || is_text(&v, "NT10QA") {
            Some(FormType::NT10QA)
        } else if is_text(&v, "NT 11-K") || is_text(&v, "NT11K") {
            Some(FormType::NT11K)
        } else if is_text(&v, "NT15D2") {
            Some(FormType::NT15D2)
        } else if is_text(&v, "25") {
            Some(FormType::TwentyFive)
        } else if is_text(&v, "25/A") {
            Some(FormType::TwentyFiveA)
        } else if is_text(&v, "RW") {
            Some(FormType::Rw)
        } else if is_text(&v, "RW/WD") {
            Some(FormType::RwWd)
        } else {
            None
        }
    }

    /// Reads a form type: surrounding whitespace is dropped, the rest is put
    /// in upper case and has to spell a form. Anything else is a validation
    /// error that quotes the input.
    pub fn from_str(s: &str) -> (r: Result<FormType, EdgarError>)
        ensures
            match r {
                Ok(form) => form_named(uppercase(trim(s@))) == Some(form),
                Err(EdgarError::Validation(m)) => form_named(uppercase(trim(s@))) is None && m@
                    == "unknown form type: "@ + s@,
                Err(_) => false,
            },
    {
        let core = string_of(&trimmed(&chars_of(s)));
        let up = to_uppercase(core.as_str());
        match FormType::from_canonical(up.as_str()) {
            Some(form) => Ok(form),
            None => {
                let mut text = String::from_str("unknown form type: ");
                text.append(s);
                Err(EdgarError::Validation(text))
            },
        }
    }

    /// Returns true if this is an amended filing.
    pub fn is_amendment(&self) -> (r: bool)
        ensures
            r == self.amended(),
    {
        match self {
            FormType::TenKA
            | FormType::TenQA
            | FormType::EightKA
            | FormType::S1A
            | FormType::S3A
            | FormType::S4A
            | FormType::S8A
            | FormType::S11A
            | FormType::SB1A
            | FormType::SB2A
            | FormType::TwentyFA
            | FormType::SixKA
            | FormType::ElevenKA
            | FormType::FortyFA
            | FormType::FortyFR12BA
            | FormType::FortyFR12GA
            | FormType::ThirteenFHrA
            | FormType::ThirteenFNTA
            | FormType::Sc13DA
            | FormType::Sc13GA
            | FormType::Form3A
            | FormType::Form4A
            | FormType::Form5A
            | FormType::F1A
            | FormType::OneFortyFourA
            | FormType::DefM14AA
            | FormType::DefC14AA
            | FormType::DefC14CA
            | FormType::NT10KA
            | FormType::NT10QA
            | FormType::TwentyFiveA => true,
            _ => false,
        }
    }

    /// Returns the base form type: an amendment gives the form it amends.
    pub fn base_type(&self) -> (r: FormType)
        ensures
            r == self.base(),
            !r.amended(),
    {
        match self {
            FormType::TenKA => FormType::TenK,
            FormType::TenQA => FormType::TenQ,
            FormType::EightKA => FormType::EightK,
            FormType::S1A => FormType::S1,
            FormType::S3A => FormType::S3,
            FormType::S4A => FormType::S4,
            FormType::S8A => FormType::S8,
            FormType::S11A => FormType::S11,
            FormType::SB1A => FormType::SB1,
            FormType::SB2A => FormType::SB2,
            FormType::TwentyFA => FormType::TwentyF,
            FormType::SixKA => FormType::SixK,
            FormType::ElevenKA => FormType::ElevenK,
            FormType::FortyFA => FormType::FortyF,
            FormType::FortyFR12BA => FormType::FortyFR12B,
            FormType::FortyFR12GA => FormType::FortyFR12G,
            FormType::ThirteenFHrA => FormType::ThirteenFHr,
            FormType::ThirteenFNTA => FormType::ThirteenFNT,
            FormType::Sc13DA => FormType::Sc13D,
            FormType::Sc13GA => FormType::Sc13G,
            FormType::Form3A => FormType::Form3,
            FormType::Form4A => FormType::Form4,
            FormType::Form5A => FormType::Form5,
            FormType::F1A => FormType::F1,
            FormType::OneFortyFourA => FormType::OneFortyFour,
            FormType::DefM14AA => FormType::DefM14A,
            FormType::DefC14AA => FormType::DefC14A,
            FormType::DefC14CA => FormType::DefC14C,
            FormType::NT10KA => FormType::NT10K,
            FormType::NT10QA => FormType::NT10Q,
            FormType::TwentyFiveA => FormType::TwentyFive,
            other => *other,
        }
    }

    /// Returns the filing category.
    pub fn category(&self) -> (r: FilingCategory)
        ensures
            r == self.category_of(),
    {
        match self.base_type() {
            FormType::TenK
            | FormType::TenQ
            | FormType::TwentyF => FilingCategory::PeriodicReport,
            FormType::EightK
            | FormType::SixK => FilingCategory::CurrentReport,
            FormType::Def14A
            | FormType::Def14C
            | FormType::DefM14A
            | FormType::DefC14A
            | FormType::DefC14C => FilingCategory::ProxyStatement,
            FormType::S1
            | FormType::S3
            | FormType::S4
            | FormType::S8
            | FormType::S11
            | FormType::SB1
            | FormType::SB2
            | FormType::F1
            | FormType::F3
            | FormType::F4
            | FormType::F6 => FilingCategory::Registration,
            FormType::Sc13D
            | FormType::Sc13G => FilingCategory::BeneficialOwnership,
            FormType::Form3
            | FormType::Form4
            | FormType::Form5 => FilingCategory::InsiderTrading,
            FormType::ThirteenFHr
            | FormType::ThirteenFNT => FilingCategory::InstitutionalHoldings,
            FormType::FortyF
            | FormType::FortyFR12B
            | FormType::FortyFR12G => FilingCategory::ForeignIssuer,
            FormType::FourTwoFourB5
            | FormType::FourTwoFive
            | FormType::PosEx
            | FormType::Pos462B
            | FormType::Pos462C
            | FormType::PosAsr
            | FormType::OneFortyFour
            | FormType::FormD => FilingCategory::Offering,
            FormType::NT10K
            | FormType::NT10Q
            | FormType::NT11K
            | FormType::NT15D2 => FilingCategory::Notification,
            _ => FilingCategory::Other,
        }
    }

    /// Returns typical filing frequency.
    pub fn frequency(&self) -> (r: FilingFrequency)
        ensures
            r == self.frequency_of(),
    {
        match self.base_type() {
            FormType::TenK
            | FormType::TwentyF
            | FormType::ElevenK => FilingFrequency::Annual,
            FormType::TenQ => FilingFrequency::Quarterly,
            FormType::SixK => FilingFrequency::SemiAnnual,
            FormType::EightK
            | FormType::Form4 => FilingFrequency::EventDriven,
            FormType::Form3
            | FormType::Form5 => FilingFrequency::AsNeeded,
            FormType::ThirteenFHr => FilingFrequency::Quarterly,
            _ => FilingFrequency::AsNeeded,
        }
    }
}

/// An amendment is a form whose label ends in `/A`, and its base form is the
/// form whose label is the same without that ending. Any other form is its
/// own base.
pub proof fn lemma_amendment_labels(form: FormType)
    ensures
        form.amended() <==> ends_with(form.label(), "/A"@),
        form.amended() ==> form.label() == form.base().label() + "/A"@,
        !form.amended() ==> form.base() == form,
        !form.base().amended(),
{
    reveal_strlit("/A");
    match form {
        FormType::TenK => {
            reveal_strlit("10-K");
            assert(form.label().subrange(form.label().len() - 2, form.label().len() as int)[1] != 'A' || form.label().subrange(form.label().len() - 2, form.label().len() as int)[0] != '/');
        },
        FormType::TenKA => {
            reveal_strlit("10-K/A");
            reveal_strlit("10-K");
            assert(form.label() =~= form.base().label() + "/A"@);
            assert(form.label().subrange(form.label().len() - 2, form.label().len() as int) =~= "/A"@);
        },
        FormType::TenQ => {
            reveal_strlit("10-Q");
            assert(form.label().subrange(form.label().len() - 2, form.label().len() as int)[1] != 'A' || form.label().subrange(form.label().len() - 2, form.label().len() as int)[0] != '/');
        },
        FormType::TenQA => {
            reveal_strlit("10-Q/A");
            reveal_strlit("10-Q");
            assert(form.label() =~= form.base().label() + "/A"@);
            assert(form.label().subrange(form.label().len() - 2, form.label().len() as int) =~= "/A"@);
        },
        FormType::EightK => {
            reveal_strlit("8-K");
            assert(form.label().subrange(form.label().len() - 2, form.label().len() as int)[1] != 'A' || form.label().subrange(form.label().len() - 2, form.label().len() as int)[0] != '/');
        },
        FormType::EightKA => {
            reveal_strlit("8-K/A");
            reveal_strlit("8-K");
            assert(form.label() =~= form.base().label() + "/A"@);
            assert(form.label().subrange(form.label().len() - 2, form.label().len() as int) =~= "/A"@);
        },
        FormType::Def14A => {
            reveal_strlit("DEF 14A");
            assert(form.label().subrange(form.label().len() - 2, form.label().len() as int)[1] != 'A' || form.label().subrange(form.label().len() - 2, form.label().len() as int)[0] != '/');
        },
        FormType::Def14C => {
            reveal_strlit("DEF 14C");
            assert(form.label().subrange(form.label().len() - 2, form.label().len() as int)[1] != 'A' || form.label().subrange(form.label().len() - 2, form.label().len() as int)[0] != '/');
        },
        FormType::DefM14A => {
            reveal_strlit("DEFM14A");
            assert(form.label().subrange(form.label().len() - 2, form.label().len() as int)[1] != 'A' || form.label().subrange(form.label().len() - 2, form.label().len() as int)[0] != '/');
        },
        FormType::DefM14AA => {
            reveal_strlit("DEFM14A/A");
            reveal_strlit("DEFM14A");
            assert(form.label() =~= form.base().label() + "/A"@);
            assert(form.label().subrange(form.label().len() - 2, form.label().len() as int) =~= "/A"@);
        },
        FormType::DefC14A => {
            reveal_strlit("DEFC14A");
            assert(form.label().subrange(form.label().len() - 2, form.label().len() as int)[1] != 'A' || form.label().subrange(form.label().len() - 2, form.label().len() as int)[0] != '/');
        },
        FormType::DefC14AA => {
            reveal_strlit("DEFC14A/A");
            reveal_strlit("DEFC14A");
            assert(form.label() =~= form.base().label() + "/A"@);
            assert(form.label().subrange(form.label().len() - 2, form.label().len() as int) =~= "/A"@);
        },
        FormType::DefC14C => {
            reveal_strlit("DEFC14C");
            assert(form.label().subrange(form.label().len() - 2, form.label().len() as int)[1] != 'A' || form.label().subrange(form.label().len() - 2, form.label().len() as int)[0] != '/');
        },
        FormType::DefC14CA => {
            reveal_strlit("DEFC14C/A");
            reveal_strlit("DEFC14C");
            assert(form.label() =~= form.base().label() + "/A"@);
            assert(form.label().subrange(form.label().len() - 2, form.label().len() as int) =~= "/A"@);
        },
        FormType::S1 => {
            reveal_strlit("S-1");
            assert(form.label().subrange(form.label().len() - 2, form.label().len() as int)[1] != 'A' || form.label().subrange(form.label().len() - 2, form.label().len() as int)[0] != '/');
        },
        FormType::S1A => {
            reveal_strlit("S-1/A");
            reveal_strlit("S-1");
            assert(form.label() =~= form.base().label() + "/A"@);
            assert(form.label().subrange(form.label().len() - 2, form.label().len() as int) =~= "/A"@);
        },
        FormType::S3 => {
            reveal_strlit("S-3");
            assert(form.label().subrange(form.label().len() - 2, form.label().len() as int)[1] != 'A' || form.label().subrange(form.label().len() - 2, form.label().len() as int)[0] != '/');
        },
        FormType::S3A => {
            reveal_strlit("S-3/A");
            reveal_strlit("S-3");
            assert(form.label() =~= form.base().label() + "/A"@);
            assert(form.label().subrange(form.label().len() - 2, form.label().len() as int) =~= "/A"@);
        },
        FormType::S4 => {
            reveal_strlit("S-4");
            assert(form.label().subrange(form.label().len() - 2, form.label().len() as int)[1] != 'A' || form.label().subrange(form.label().len() - 2, form.label().len() as int)[0] != '/');
        },
        FormType::S4A => {
            reveal_strlit("S-4/A");
            reveal_strlit("S-4");
            assert(form.label() =~= form.base().label() + "/A"@);
            assert(form.label().subrange(form.label().len() - 2, form.label().len() as int) =~= "/A"@);
        },
        FormType::S8 => {
            reveal_strlit("S-8");
            assert(form.label().subrange(form.label().len() - 2, form.label().len() as int)[1] != 'A' || form.label().subrange(form.label().len() - 2, form.label().len() as int)[0] != '/');
        },
        FormType::S8A => {
            reveal_strlit("S-8/A");
            reveal_strlit("S-8");
            assert(form.label() =~= form.base().label() + "/A"@);
            assert(form.label().subrange(form.label().len() - 2, form.label().len() as int) =~= "/A"@);
        },
        FormType::S11 => {
            reveal_strlit("S-11");
            assert(form.label().subrange(form.label().len() - 2, form.label().len() as int)[1] != 'A' || form.label().subrange(form.label().len() - 2, form.label().len() as int)[0] != '/');
        },
        FormType::S11A => {
            reveal_strlit("S-11/A");
            reveal_strlit("S-11");
            assert(form.label() =~= form.base().label() + "/A"@);
            assert(form.label().subrange(form.label().len() - 2, form.label().len() as int) =~= "/A"@);
        },
        FormType::SB1 => {
            reveal_strlit("SB-1");
            assert(form.label().subrange(form.label().len() - 2, form.label().len() as int)[1] != 'A' || form.label().subrange(form.label().len() - 2, form.label().len() as int)[0] != '/');
        },
        FormType::SB2 => {
            reveal_strlit("SB-2");
            assert(form.label().subrange(form.label().len() - 2, form.label().len() as int)[1] != 'A' || form.label().subrange(form.label().len() - 2, form.label().len() as int)[0] != '/');
        },
        FormType::SB1A => {
            reveal_strlit("SB-1/A");
            reveal_strlit("SB-1");
            assert(form.label() =~= form.base().label() + "/A"@);
            assert(form.label().subrange(form.label().len() - 2, form.label().len() as int) =~= "/A"@);
        },
        FormType::SB2A => {
            reveal_strlit("SB-2/A");
            reveal_strlit("SB-2");
            assert(form.label() =~= form.base().label() + "/A"@);
            assert(form.label().subrange(form.label().len() - 2, form.label().len() as int) =~= "/A"@);
        },
        FormType::TwentyF => {
            reveal_strlit("20-F");
            assert(form.label().subrange(form.label().len() - 2, form.label().len() as int)[1] != 'A' || form.label().subrange(form.label().len() - 2, form.label().len() as int)[0] != '/');
        },
        FormType::TwentyFA => {
            reveal_strlit("20-F/A");
            reveal_strlit("20-F");
            assert(form.label() =~= form.base().label() + "/A"@);
            assert(form.label().subrange(form.label().len() - 2, form.label().len() as int) =~= "/A"@);
        },
        FormType::SixK => {
            reveal_strlit("6-K");
            assert(form.label().subrange(form.label().len() - 2, form.label().len() as int)[1] != 'A' || form.label().subrange(form.label().len() - 2, form.label().len() as int)[0] != '/');
        },
        FormType::SixKA => {
            reveal_strlit("6-K/A");
            reveal_strlit("6-K");
            assert(form.label() =~= form.base().label() + "/A"@);
            assert(form.label().subrange(form.label().len() - 2, form.label().len() as int) =~= "/A"@);
        },
        FormType::FortyF => {
            reveal_strlit("40-F");
            assert(form.label().subrange(form.label().len() - 2, form.label().len() as int)[1] != 'A' || form.label().subrange(form.label().len() - 2, form.label().len() as int)[0] != '/');
        },
        FormType::FortyFA => {
            reveal_strlit("40-F/A");
            reveal_strlit("40-F");
            assert(form.label() =~= form.base().label() + "/A"@);
            assert(form.label().subrange(form.label().len() - 2, form.label().len() as int) =~= "/A"@);
        },
        FormType::FortyFR12B => {
            reveal_strlit("40-FR12B");
            assert(form.label().subrange(form.label().len() - 2, form.label().len() as int)[1] != 'A' || form.label().subrange(form.label().len() - 2, form.label().len() as int)[0] != '/');
        },
        FormType::FortyFR12BA => {
            reveal_strlit("40-FR12B/A");
            reveal_strlit("40-FR12B");
            assert(form.label() =~= form.base().label() + "/A"@);
            assert(form.label().subrange(form.label().len() - 2, form.label().len() as int) =~= "/A"@);
        },
        FormType::FortyFR12G => {
            reveal_strlit("40-FR12G");
            assert(form.label().subrange(form.label().len() - 2, form.label().len() as int)[1] != 'A' || form.label().subrange(form.label().len() - 2, form.label().len() as int)[0] != '/');
        },
        FormType::FortyFR12GA => {
            reveal_strlit("40-FR12G/A");
            reveal_strlit("40-FR12G");
            assert(form.label() =~= form.base().label() + "/A"@);
            assert(form.label().subrange(form.label().len() - 2, form.label().len() as int) =~= "/A"@);
        },
        FormType::F1 => {
            reveal_strlit("F-1");
            assert(form.label().subrange(form.label().len() - 2, form.label().len() as int)[1] != 'A' || form.label().subrange(form.label().len() - 2, form.label().len() as int)[0] != '/');
        },
        FormType::F1A => {
            reveal_strlit("F-1/A");
            reveal_strlit("F-1");
            assert(form.label() =~= form.base().label() + "/A"@);
            assert(form.label().subrange(form.label().len() - 2, form.label().len() as int) =~= "/A"@);
        },
        FormType::F3 => {
            reveal_strlit("F-3");
            assert(form.label().subrange(form.label().len() - 2, form.label().len() as int)[1] != 'A' || form.label().subrange(form.label().len() - 2, form.label().len() as int)[0] != '/');
        },
        FormType::F3D => {
            reveal_strlit("F-3D");
            assert(form.label().subrange(form.label().len() - 2, form.label().len() as int)[1] != 'A' || form.label().subrange(form.label().len() - 2, form.label().len() as int)[0] != '/');
        },
        FormType::F4 => {
            reveal_strlit("F-4");
            assert(form.label().subrange(form.label().len() - 2, form.label().len() as int)[1] != 'A' || form.label().subrange(form.label().len() - 2, form.label().len() as int)[0] != '/');
        },
        FormType::F4EF => {
            reveal_strlit("F-4EF");
            assert(form.label().subrange(form.label().len() - 2, form.label().len() as int)[1] != 'A' || form.label().subrange(form.label().len() - 2, form.label().len() as int)[0] != '/');
        },
        FormType::F6 => {
            reveal_strlit("F-6");
            assert(form.label().subrange(form.label().len() - 2, form.label().len() as int)[1] != 'A' || form.label().subrange(form.label().len() - 2, form.label().len() as int)[0] != '/');
        },
        FormType::F6EF => {
            reveal_strlit("F-6EF");
            assert(form.label().subrange(form.label().len() - 2, form.label().len() as int)[1] != 'A' || form.label().subrange(form.label().len() - 2, form.label().len() as int)[0] != '/');
        },
        FormType::ElevenK => {
            reveal_strlit("11-K");
            assert(form.label().subrange(form.label().len() - 2, form.label().len() as int)[1] != 'A' || form.label().subrange(form.label().len() - 2, form.label().len() as int)[0] != '/');
        },
        FormType::ElevenKA => {
            reveal_strlit("11-K/A");
            reveal_strlit("11-K");
            assert(form.label() =~= form.base().label() + "/A"@);
            assert(form.label().subrange(form.label().len() - 2, form.label().len() as int) =~= "/A"@);
        },
        FormType::ThirteenFHr => {
            reveal_strlit("13F-HR");
            assert(form.label().subrange(form.label().len() - 2, form.label().len() as int)[1] != 'A' || form.label().subrange(form.label().len() - 2, form.label().len() as int)[0] != '/');
        },
        FormType::ThirteenFHrA => {
            reveal_strlit("13F-HR/A");
            reveal_strlit("13F-HR");
            assert(form.label() =~= form.base().label() + "/A"@);
            assert(form.label().subrange(form.label().len() - 2, form.label().len() as int) =~= "/A"@);
        },
        FormType::ThirteenFNT => {
            reveal_strlit("13F-NT");
            assert(form.label().subrange(form.label().len() - 2, form.label().len() as int)[1] != 'A' || form.label().subrange(form.label().len() - 2, form.label().len() as int)[0] != '/');
        },
        FormType::ThirteenFNTA => {
            reveal_strlit("13F-NT/A");
            reveal_strlit("13F-NT");
            assert(form.label() =~= form.base().label() + "/A"@);
            assert(form.label().subrange(form.label().len() - 2, form.label().len() as int) =~= "/A"@);
        },
        FormType::Sc13D => {
            reveal_strlit("SC 13D");
            assert(form.label().subrange(form.label().len() - 2, form.label().len() as int)[1] != 'A' || form.label().subrange(form.label().len() - 2, form.label().len() as int)[0] != '/');
        },
        FormType::Sc13DA => {
            reveal_strlit("SC 13D/A");
            reveal_strlit("SC 13D");
            assert(form.label() =~= form.base().label() + "/A"@);
            assert(form.label().subrange(form.label().len() - 2, form.label().len() as int) =~= "/A"@);
        },
        FormType::Sc13G => {
            reveal_strlit("SC 13G");
            assert(form.label().subrange(form.label().len() - 2, form.label().len() as int)[1] != 'A' || form.label().subrange(form.label().len() - 2, form.label().len() as int)[0] != '/');
        },
        FormType::Sc13GA => {
            reveal_strlit("SC 13G/A");
            reveal_strlit("SC 13G");
            assert(form.label() =~= form.base().label() + "/A"@);
            assert(form.label().subrange(form.label().len() - 2, form.label().len() as int) =~= "/A"@);
        },
        FormType::Form3 => {
            reveal_strlit("3");
        },
        FormType::Form3A => {
            reveal_strlit("3/A");
            reveal_strlit("3");
            assert(form.label() =~= form.base().label() + "/A"@);
            assert(form.label().subrange(form.label().len() - 2, form.label().len() as int) =~= "/A"@);
        },
        FormType::Form4 => {
            reveal_strlit("4");
        },
        FormType::Form4A => {
            reveal_strlit("4/A");
            reveal_strlit("4");
            assert(form.label() =~= form.base().label() + "/A"@);
            assert(form.label().subrange(form.label().len() - 2, form.label().len() as int) =~= "/A"@);
        },
        FormType::Form5 => {
            reveal_strlit("5");
        },
        FormType::Form5A => {
            reveal_strlit("5/A");
            reveal_strlit("5");
            assert(form.label() =~= form.base().label() + "/A"@);
            assert(form.label().subrange(form.label().len() - 2, form.label().len() as int) =~= "/A"@);
        },
        FormType::FourTwoFourB5 => {
            reveal_strlit("424B5");
            assert(form.label().subrange(form.label().len() - 2, form.label().len() as int)[1] != 'A' || form.label().subrange(form.label().len() - 2, form.label().len() as int)[0] != '/');
        },
        FormType::FourTwoFive => {
            reveal_strlit("425");
            assert(form.label().subrange(form.label().len() - 2, form.label().len() as int)[1] != 'A' || form.label().subrange(form.label().len() - 2, form.label().len() as int)[0] != '/');
        },
        FormType::PosEx => {
            reveal_strlit("POS EX");
            assert(form.label().subrange(form.label().len() - 2, form.label().len() as int)[1] != 'A' || form.label().subrange(form.label().len() - 2, form.label().len() as int)[0] != '/');
        },
        FormType::Pos462B => {
            reveal_strlit("POS 462B");
            assert(form.label().subrange(form.label().len() - 2, form.label().len() as int)[1] != 'A' || form.label().subrange(form.label().len() - 2, form.label().len() as int)[0] != '/');
        },
        FormType::Pos462C => {
            reveal_strlit("POS 462C");
            assert(form.label().subrange(form.label().len() - 2, form.label().len() as int)[1] != 'A' || form.label().subrange(form.label().len() - 2, form.label().len() as int)[0] != '/');
        },
        FormType::PosAsr => {
            reveal_strlit("POS ASR");
            assert(form.label().subrange(form.label().len() - 2, form.label().len() as int)[1] != 'A' || form.label().subrange(form.label().len() - 2, form.label().len() as int)[0] != '/');
        },
        FormType::OneFortyFour => {
            reveal_strlit("144");
            assert(form.label().subrange(form.label().len() - 2, form.label().len() as int)[1] != 'A' || form.label().subrange(form.label().len() - 2, form.label().len() as int)[0] != '/');
        },
        FormType::OneFortyFourA => {
            reveal_strlit("144/A");
            reveal_strlit("144");
            assert(form.label() =~= form.base().label() + "/A"@);
            assert(form.label().subrange(form.label().len() - 2, form.label().len() as int) =~= "/A"@);
        },
        FormType::FormD => {
            reveal_strlit("D");
        },
        FormType::NT10K => {
            reveal_strlit("NT 10-K");
            assert(form.label().subrange(form.label().len() - 2, form.label().len() as int)[1] != 'A' || form.label().subrange(form.label().len() - 2, form.label().len() as int)[0] != '/');
        },
        FormType::NT10KA => {
            reveal_strlit("NT 10-K/A");
            reveal_strlit("NT 10-K");
            assert(form.label() =~= form.base().label() + "/A"@);
            assert(form.label().subrange(form.label().len() - 2, form.label().len() as int) =~= "/A"@);
        },
        FormType::NT10Q => {
            reveal_strlit("NT 10-Q");
            assert(form.label().subrange(form.label().len() - 2, form.label().len() as int)[1] != 'A' || form.label().subrange(form.label().len() - 2, form.label().len() as int)[0] != '/');
        },
        FormType::NT10QA => {
            reveal_strlit("NT 10-Q/A");
            reveal_strlit("NT 10-Q");
            assert(form.label() =~= form.base().label() + "/A"@);
            assert(form.label().subrange(form.label().len() - 2, form.label().len() as int) =~= "/A"@);
        },
        FormType::NT11K => {
            reveal_strlit("NT 11-K");
            assert(form.label().subrange(form.label().len() - 2, form.label().len() as int)[1] != 'A' || form.label().subrange(form.label().len() - 2, form.label().len() as int)[0] != '/');
        },
        FormType::NT15D2 => {
            reveal_strlit("NT 15D2");
            assert(form.label().subrange(form.label().len() - 2, form.label().len() as int)[1] != 'A' || form.label().subrange(form.label().len() - 2, form.label().len() as int)[0] != '/');
        },
        FormType::TwentyFive => {
            reveal_strlit("25");
            assert(form.label().subrange(form.label().len() - 2, form.label().len() as int)[1] != 'A' || form.label().subrange(form.label().len() - 2, form.label().len() as int)[0] != '/');
        },
        FormType::TwentyFiveA => {
            reveal_strlit("25/A");
            reveal_strlit("25");
            assert(form.label() =~= form.base().label() + "/A"@);
            assert(form.label().subrange(form.label().len() - 2, form.label().len() as int) =~= "/A"@);
        },
        FormType::Rw => {
            reveal_strlit("RW");
            assert(form.label().subrange(form.label().len() - 2, form.label().len() as int)[1] != 'A' || form.label().subrange(form.label().len() - 2, form.label().len() as int)[0] != '/');
        },
        FormType::RwWd => {
            reveal_strlit("RW/Wd");
            assert(form.label().subrange(form.label().len() - 2, form.label().len() as int)[1] != 'A' || form.label().subrange(form.label().len() - 2, form.label().len() as int)[0] != '/');
        },
    }
}

/// Check if a string is a valid SEC filing type.
pub fn is_valid_filing_type(s: &str) -> (r: bool)
    ensures
        r == form_named(uppercase(trim(s@))) is Some,
{
    FormType::from_str(s).is_ok()
}

} // verus!
