//! Enumerated column values.

use vstd::prelude::*;

verus! {

/// What kind of party a person record stands for.
#[derive(Clone, Copy, Debug, PartialEq, Eq, Structural)]
pub enum PersonType {
    Natural,
    Legal,
    System,
    Integration,
    Unknown,
}

impl PersonType {
    /// The number that stands for the variant in encodings.
    pub open spec fn code_value(self) -> u64 {
        match self {
            PersonType::Natural => 0u64,
            PersonType::Legal => 1u64,
            PersonType::System => 2u64,
            PersonType::Integration => 3u64,
            PersonType::Unknown => 4u64,
        }
    }

    pub fn code(&self) -> (c: u64)
        ensures
            c == self.code_value(),
    {
        match self {
            PersonType::Natural => 0u64,
            PersonType::Legal => 1u64,
            PersonType::System => 2u64,
            PersonType::Integration => 3u64,
            PersonType::Unknown => 4u64,
        }
    }
}

/// Risk classification of a person.
#[derive(Clone, Copy, Debug, PartialEq, Eq, Structural)]
pub enum RiskRating {
    Low,
    Medium,
    High,
    Blacklisted,
}

impl RiskRating {
    /// The number that stands for the variant in encodings.
    pub open spec fn code_value(self) -> u64 {
        match self {
            RiskRating::Low => 0u64,
            RiskRating::Medium => 1u64,
            RiskRating::High => 2u64,
            RiskRating::Blacklisted => 3u64,
        }
    }

    pub fn code(&self) -> (c: u64)
        ensures
            c == self.code_value(),
    {
        match self {
            RiskRating::Low => 0u64,
            RiskRating::Medium => 1u64,
            RiskRating::High => 2u64,
            RiskRating::Blacklisted => 3u64,
        }
    }
}

/// Lifecycle status of a person.
#[derive(Clone, Copy, Debug, PartialEq, Eq, Structural)]
pub enum PersonStatus {
    Active,
    Inactive,
    Pending,
    Deceased,
    Dissolved,
    Banned,
}

impl PersonStatus {
    /// The number that stands for the variant in encodings.
    pub open spec fn code_value(self) -> u64 {
        match self {
            PersonStatus::Active => 0u64,
            PersonStatus::Inactive => 1u64,
            PersonStatus::Pending => 2u64,
            PersonStatus::Deceased => 3u64,
            PersonStatus::Dissolved => 4u64,
            PersonStatus::Banned => 5u64,
        }
    }

    pub fn code(&self) -> (c: u64)
        ensures
            c == self.code_value(),
    {
        match self {
            PersonStatus::Active => 0u64,
            PersonStatus::Inactive => 1u64,
            PersonStatus::Pending => 2u64,
            PersonStatus::Deceased => 3u64,
            PersonStatus::Dissolved => 4u64,
            PersonStatus::Banned => 5u64,
        }
    }
}

/// Kind of identity document a person is identified by.
#[derive(Clone, Copy, Debug, PartialEq, Eq, Structural)]
pub enum IdentityType {
    NationalId,
    Passport,
    CompanyRegistration,
    PermanentResidentCard,
    AsylumCard,
    TemporaryResidentPermit,
    Unknown,
}

impl IdentityType {
    /// The number that stands for the variant in encodings.
    pub open spec fn code_value(self) -> u64 {
        match self {
            IdentityType::NationalId => 0u64,
            IdentityType::Passport => 1u64,
            IdentityType::CompanyRegistration => 2u64,
            IdentityType::PermanentResidentCard => 3u64,
            IdentityType::AsylumCard => 4u64,
            IdentityType::TemporaryResidentPermit => 5u64,
            IdentityType::Unknown => 6u64,
        }
    }

    pub fn code(&self) -> (c: u64)
        ensures
            c == self.code_value(),
    {
        match self {
            IdentityType::NationalId => 0u64,
            IdentityType::Passport => 1u64,
            IdentityType::CompanyRegistration => 2u64,
            IdentityType::PermanentResidentCard => 3u64,
            IdentityType::AsylumCard => 4u64,
            IdentityType::TemporaryResidentPermit => 5u64,
            IdentityType::Unknown => 6u64,
        }
    }
}

/// Role a person plays towards a referenced entity.
#[derive(Clone, Copy, Debug, PartialEq, Eq, Structural)]
pub enum RelationshipRole {
    Customer,
    Employee,
    Shareholder,
    Director,
    BeneficialOwner,
    Agent,
    Vendor,
    Partner,
    RegulatoryContact,
    EmergencyContact,
    SystemAdmin,
    Other,
}

impl RelationshipRole {
    /// The number that stands for the variant in encodings.
    pub open spec fn code_value(self) -> u64 {
        match self {
            RelationshipRole::Customer => 0u64,
            RelationshipRole::Employee => 1u64,
            RelationshipRole::Shareholder => 2u64,
            RelationshipRole::Director => 3u64,
            RelationshipRole::BeneficialOwner => 4u64,
            RelationshipRole::Agent => 5u64,
            RelationshipRole::Vendor => 6u64,
            RelationshipRole::Partner => 7u64,
            RelationshipRole::RegulatoryContact => 8u64,
            RelationshipRole::EmergencyContact => 9u64,
            RelationshipRole::SystemAdmin => 10u64,
            RelationshipRole::Other => 11u64,
        }
    }

    pub fn code(&self) -> (c: u64)
        ensures
            c == self.code_value(),
    {
        match self {
            RelationshipRole::Customer => 0u64,
            RelationshipRole::Employee => 1u64,
            RelationshipRole::Shareholder => 2u64,
            RelationshipRole::Director => 3u64,
            RelationshipRole::BeneficialOwner => 4u64,
            RelationshipRole::Agent => 5u64,
            RelationshipRole::Vendor => 6u64,
            RelationshipRole::Partner => 7u64,
            RelationshipRole::RegulatoryContact => 8u64,
            RelationshipRole::EmergencyContact => 9u64,
            RelationshipRole::SystemAdmin => 10u64,
            RelationshipRole::Other => 11u64,
        }
    }
}

/// Kind of location.
#[derive(Clone, Copy, Debug, PartialEq, Eq, Structural)]
pub enum LocationType {
    Residential,
    Business,
    Mailing,
    Temporary,
    Branch,
    Community,
    Other,
}

impl LocationType {
    /// The number that stands for the variant in encodings.
    pub open spec fn code_value(self) -> u64 {
        match self {
            LocationType::Residential => 0u64,
            LocationType::Business => 1u64,
            LocationType::Mailing => 2u64,
            LocationType::Temporary => 3u64,
            LocationType::Branch => 4u64,
            LocationType::Community => 5u64,
            LocationType::Other => 6u64,
        }
    }

    pub fn code(&self) -> (c: u64)
        ensures
            c == self.code_value(),
    {
        match self {
            LocationType::Residential => 0u64,
            LocationType::Business => 1u64,
            LocationType::Mailing => 2u64,
            LocationType::Temporary => 3u64,
            LocationType::Branch => 4u64,
            LocationType::Community => 5u64,
            LocationType::Other => 6u64,
        }
    }
}

/// Kind of fee booked to a general-ledger account.
#[derive(Clone, Copy, Debug, PartialEq, Eq, Structural)]
pub enum FeeType {
    InterestExpense,
    InterestIncome,
    MaintenanceFee,
    ClosureFee,
    OverdraftFee,
    TransactionFee,
    PenaltyFee,
    Other,
}

impl FeeType {
    /// The number that stands for the variant in encodings.
    pub open spec fn code_value(self) -> u64 {
        match self {
            FeeType::InterestExpense => 0u64,
            FeeType::InterestIncome => 1u64,
            FeeType::MaintenanceFee => 2u64,
            FeeType::ClosureFee => 3u64,
            FeeType::OverdraftFee => 4u64,
            FeeType::TransactionFee => 5u64,
            FeeType::PenaltyFee => 6u64,
            FeeType::Other => 7u64,
        }
    }

    pub fn code(&self) -> (c: u64)
        ensures
            c == self.code_value(),
    {
        match self {
            FeeType::InterestExpense => 0u64,
            FeeType::InterestIncome => 1u64,
            FeeType::MaintenanceFee => 2u64,
            FeeType::ClosureFee => 3u64,
            FeeType::OverdraftFee => 4u64,
            FeeType::TransactionFee => 5u64,
            FeeType::PenaltyFee => 6u64,
            FeeType::Other => 7u64,
        }
    }
}

/// Kind of banking product.
#[derive(Clone, Copy, Debug, PartialEq, Eq, Structural)]
pub enum ProductType {
    CASA,
    LOAN,
}

impl ProductType {
    /// The number that stands for the variant in encodings.
    pub open spec fn code_value(self) -> u64 {
        match self {
            ProductType::CASA => 0u64,
            ProductType::LOAN => 1u64,
        }
    }

    pub fn code(&self) -> (c: u64)
        ensures
            c == self.code_value(),
    {
        match self {
            ProductType::CASA => 0u64,
            ProductType::LOAN => 1u64,
        }
    }
}

/// How interest is computed.
#[derive(Clone, Copy, Debug, PartialEq, Eq, Structural)]
pub enum InterestCalculationMethod {
    DailyBalance,
    AverageDailyBalance,
    MinimumBalance,
}

impl InterestCalculationMethod {
    /// The number that stands for the variant in encodings.
    pub open spec fn code_value(self) -> u64 {
        match self {
            InterestCalculationMethod::DailyBalance => 0u64,
            InterestCalculationMethod::AverageDailyBalance => 1u64,
            InterestCalculationMethod::MinimumBalance => 2u64,
        }
    }

    pub fn code(&self) -> (c: u64)
        ensures
            c == self.code_value(),
    {
        match self {
            InterestCalculationMethod::DailyBalance => 0u64,
            InterestCalculationMethod::AverageDailyBalance => 1u64,
            InterestCalculationMethod::MinimumBalance => 2u64,
        }
    }
}

/// How often interest is posted.
#[derive(Clone, Copy, Debug, PartialEq, Eq, Structural)]
pub enum PostingFrequency {
    Daily,
    Weekly,
    Monthly,
    Quarterly,
    Annually,
}

impl PostingFrequency {
    /// The number that stands for the variant in encodings.
    pub open spec fn code_value(self) -> u64 {
        match self {
            PostingFrequency::Daily => 0u64,
            PostingFrequency::Weekly => 1u64,
            PostingFrequency::Monthly => 2u64,
            PostingFrequency::Quarterly => 3u64,
            PostingFrequency::Annually => 4u64,
        }
    }

    pub fn code(&self) -> (c: u64)
        ensures
            c == self.code_value(),
    {
        match self {
            PostingFrequency::Daily => 0u64,
            PostingFrequency::Weekly => 1u64,
            PostingFrequency::Monthly => 2u64,
            PostingFrequency::Quarterly => 3u64,
            PostingFrequency::Annually => 4u64,
        }
    }
}

/// How often a maintenance fee is charged.
#[derive(Clone, Copy, Debug, PartialEq, Eq, Structural)]
pub enum MaintenanceFeeFrequency {
    Daily,
    Weekly,
    Monthly,
    Quarterly,
    Yearly,
    NotApplicable,
}

impl MaintenanceFeeFrequency {
    /// The number that stands for the variant in encodings.
    pub open spec fn code_value(self) -> u64 {
        match self {
            MaintenanceFeeFrequency::Daily => 0u64,
            MaintenanceFeeFrequency::Weekly => 1u64,
            MaintenanceFeeFrequency::Monthly => 2u64,
            MaintenanceFeeFrequency::Quarterly => 3u64,
            MaintenanceFeeFrequency::Yearly => 4u64,
            MaintenanceFeeFrequency::NotApplicable => 5u64,
        }
    }

    pub fn code(&self) -> (c: u64)
        ensures
            c == self.code_value(),
    {
        match self {
            MaintenanceFeeFrequency::Daily => 0u64,
            MaintenanceFeeFrequency::Weekly => 1u64,
            MaintenanceFeeFrequency::Monthly => 2u64,
            MaintenanceFeeFrequency::Quarterly => 3u64,
            MaintenanceFeeFrequency::Yearly => 4u64,
            MaintenanceFeeFrequency::NotApplicable => 5u64,
        }
    }
}

/// How often interest accrues.
#[derive(Clone, Copy, Debug, PartialEq, Eq, Structural)]
pub enum ProductAccrualFrequency {
    Daily,
    BusinessDaysOnly,
    NotApplicable,
}

impl ProductAccrualFrequency {
    /// The number that stands for the variant in encodings.
    pub open spec fn code_value(self) -> u64 {
        match self {
            ProductAccrualFrequency::Daily => 0u64,
            ProductAccrualFrequency::BusinessDaysOnly => 1u64,
            ProductAccrualFrequency::NotApplicable => 2u64,
        }
    }

    pub fn code(&self) -> (c: u64)
        ensures
            c == self.code_value(),
    {
        match self {
            ProductAccrualFrequency::Daily => 0u64,
            ProductAccrualFrequency::BusinessDaysOnly => 1u64,
            ProductAccrualFrequency::NotApplicable => 2u64,
        }
    }
}

impl PersonType {
    /// Distinct variants stand for distinct numbers.
    pub proof fn lemma_code_injective(self, other: Self)
        requires
            self.code_value() == other.code_value(),
        ensures
            self == other,
    {
    }
}

impl RiskRating {
    /// Distinct variants stand for distinct numbers.
    pub proof fn lemma_code_injective(self, other: Self)
        requires
            self.code_value() == other.code_value(),
        ensures
            self == other,
    {
    }
}

impl PersonStatus {
    /// Distinct variants stand for distinct numbers.
    pub proof fn lemma_code_injective(self, other: Self)
        requires
            self.code_value() == other.code_value(),
        ensures
            self == other,
    {
    }
}

impl IdentityType {
    /// Distinct variants stand for distinct numbers.
    pub proof fn lemma_code_injective(self, other: Self)
        requires
            self.code_value() == other.code_value(),
        ensures
            self == other,
    {
    }
}

impl RelationshipRole {
    /// Distinct variants stand for distinct numbers.
    pub proof fn lemma_code_injective(self, other: Self)
        requires
            self.code_value() == other.code_value(),
        ensures
            self == other,
    {
    }
}

impl LocationType {
    /// Distinct variants stand for distinct numbers.
    pub proof fn lemma_code_injective(self, other: Self)
        requires
            self.code_value() == other.code_value(),
        ensures
            self == other,
    {
    }
}

impl FeeType {
    /// Distinct variants stand for distinct numbers.
    pub proof fn lemma_code_injective(self, other: Self)
        requires
            self.code_value() == other.code_value(),
        ensures
            self == other,
    {
    }
}

impl ProductType {
    /// Distinct variants stand for distinct numbers.
    pub proof fn lemma_code_injective(self, other: Self)
        requires
            self.code_value() == other.code_value(),
        ensures
            self == other,
    {
    }
}

impl InterestCalculationMethod {
    /// Distinct variants stand for distinct numbers.
    pub proof fn lemma_code_injective(self, other: Self)
        requires
            self.code_value() == other.code_value(),
        ensures
            self == other,
    {
    }
}

impl PostingFrequency {
    /// Distinct variants stand for distinct numbers.
    pub proof fn lemma_code_injective(self, other: Self)
        requires
            self.code_value() == other.code_value(),
        ensures
            self == other,
    {
    }
}

impl MaintenanceFeeFrequency {
    /// Distinct variants stand for distinct numbers.
    pub proof fn lemma_code_injective(self, other: Self)
        requires
            self.code_value() == other.code_value(),
        ensures
            self == other,
    {
    }
}

impl ProductAccrualFrequency {
    /// Distinct variants stand for distinct numbers.
    pub proof fn lemma_code_injective(self, other: Self)
        requires
            self.code_value() == other.code_value(),
        ensures
            self == other,
    {
    }
}

} // verus!
