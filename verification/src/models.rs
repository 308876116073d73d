//! The records that the server sends and the client shows.

use crate::text::{join, joined, same_text, views};
use vstd::prelude::*;

verus! {

/// A calendar date of the `chrono` crate. The client carries such dates from
/// the server to the screen and reads nothing in them.
#[verifier::external_type_specification]
#[verifier::external_body]
pub struct ExNaiveDate(chrono::NaiveDate);

/// A registered user.
#[derive(Debug, Clone)]
pub struct User {
    pub id: i32,
    pub uuid: String,
    pub username: String,
    pub email: String,
    pub role: String,
    pub registered_at: String,
}

/// The answer to a login or a registration.
#[derive(Debug, Clone)]
pub struct AuthResponse {
    pub token: String,
    pub user: User,
}

/// Body of a login request.
#[derive(Debug)]
pub struct LoginRequest {
    pub email: String,
    pub password: String,
}

/// Body of a registration request.
#[derive(Debug)]
pub struct RegisterRequest {
    pub username: String,
    pub email: String,
    pub password: String,
}

/// Body of a request to change the password.
#[derive(Debug)]
pub struct PasswordChangeRequest {
    pub current_password: String,
    pub new_password: String,
}

/// Body of a request to change the user name.
#[derive(Debug)]
pub struct UsernameChangeRequest {
    pub username: String,
}

/// One named risk indicator of a company. The value is the bit pattern of
/// the double that the server sent.
#[derive(Debug, Clone)]
pub struct RiskIndicator {
    pub name: String,
    pub value: u64,
}

/// A company with all its details. A risk score is held as the bit pattern
/// of the double that the server sent.
#[derive(Debug, Clone)]
pub struct Company {
    pub firmenbuchnummer: String,
    pub name: String,
    pub legal_form: Option<String>,
    pub business_purpose: Option<String>,
    pub seat: Option<String>,
    pub address: Option<Address>,
    pub partners: Vec<Partner>,
    pub registry_entries: Vec<RegistryEntry>,
    pub risk_score: Option<u64>,
    pub risk_indicators: Vec<RiskIndicator>,
    pub reference_date: Option<chrono::NaiveDate>,
}

/// A company as a line of a result list. A risk score is held as the bit
/// pattern of the double that the server sent.
#[derive(Debug, Clone)]
pub struct CompanySummary {
    pub firmenbuchnummer: String,
    pub name: String,
    pub legal_form: Option<String>,
    pub business_purpose: Option<String>,
    pub seat: Option<String>,
    pub risk_score: Option<u64>,
}

/// A postal address, each part of which may be missing.
#[derive(Debug, Clone)]
pub struct Address {
    pub street: Option<String>,
    pub house_number: Option<String>,
    pub postal_code: Option<String>,
    pub city: Option<String>,
    pub country: Option<String>,
}

/// A person or company that has a part in a company.
#[derive(Debug, Clone)]
pub struct Partner {
    pub name: Option<String>,
    pub first_name: Option<String>,
    pub last_name: Option<String>,
    pub birth_date: Option<chrono::NaiveDate>,
    pub role: Option<String>,
    pub representation: Option<String>,
}

/// An entry of the company register.
#[derive(Debug, Clone)]
pub struct RegistryEntry {
    pub entry_type: Option<String>,
    pub court: Option<String>,
    pub file_number: Option<String>,
    pub application_date: Option<chrono::NaiveDate>,
    pub registration_date: Option<chrono::NaiveDate>,
}

/// One page of search results and the number of all results.
#[derive(Debug, Clone)]
pub struct SearchResponse {
    pub companies: Vec<CompanySummary>,
    pub total: i32,
}

/// The answer to a request for one company.
#[derive(Debug, Clone)]
pub struct CompanyDetailsResponse {
    pub company: Company,
}

/// A suggestion for a search that is being typed.
#[derive(Debug, Clone)]
pub struct SearchSuggestion {
    pub firmenbuchnummer: String,
    pub name: String,
}

/// The suggestions for one query.
#[derive(Debug, Clone)]
pub struct SearchSuggestionsResponse {
    pub suggestions: Vec<SearchSuggestion>,
}

/// A city and the number of companies seated there.
#[derive(Debug, Clone)]
pub struct City {
    pub city: String,
    pub count: i32,
}

/// The cities that can be filtered by.
#[derive(Debug, Clone)]
pub struct CitiesResponse {
    pub cities: Vec<City>,
}

/// Sizes of the server's database.
#[derive(Debug, Clone)]
pub struct Metrics {
    pub total_companies: i64,
    pub total_addresses: i64,
    pub total_partners: i64,
    pub total_registry_entries: i64,
}

/// A company that many users looked at.
#[derive(Debug, Clone)]
pub struct Recommendation {
    pub firmenbuchnummer: String,
    pub name: String,
    pub views: i64,
}

/// The most viewed companies.
#[derive(Debug, Clone)]
pub struct RecommendationsResponse {
    pub recommendations: Vec<Recommendation>,
}

/// The body of an answer that reports a failure.
#[derive(Debug, Clone)]
pub struct ErrorResponse {
    pub detail: String,
}

/// Bit pattern of the double 0.7, from which on a risk score is high.
pub const RISK_HIGH_BITS: u64 = 0x3FE6_6666_6666_6666;

/// Bit pattern of the double 0.4, from which on a risk score is medium.
pub const RISK_MEDIUM_BITS: u64 = 0x3FD9_9999_9999_999A;

/// Bit pattern of positive infinity, the largest double that is a number.
pub const INFINITY_BITS: u64 = 0x7FF0_0000_0000_0000;

/// Whether the double with bit pattern `bits` is a number not less than the
/// double with bit pattern `threshold_bits`, which is positive. Doubles with
/// a clear sign bit, up to infinity, are ordered as their bit patterns are;
/// above infinity lie the patterns that are no number, and with the sign bit
/// set the negative ones.
pub open spec fn at_least(bits: u64, threshold_bits: u64) -> bool {
    threshold_bits <= bits <= INFINITY_BITS
}

/// The name of the risk level of a score: high from 0.7, medium from 0.4,
/// low for every other score, and "N/A" without a score.
pub open spec fn risk_level_name(risk_score: Option<u64>) -> Seq<char> {
    match risk_score {
        Some(bits) => if at_least(bits, RISK_HIGH_BITS) {
            "High"@
        } else if at_least(bits, RISK_MEDIUM_BITS) {
            "Medium"@
        } else {
            "Low"@
        },
        None => "N/A"@,
    }
}

/// The name of the risk level of a score.
pub fn risk_level_text(risk_score: Option<u64>) -> (name: &'static str)
    ensures
        name@ == risk_level_name(risk_score),
{
    match risk_score {
        Some(bits) => if RISK_HIGH_BITS <= bits && bits <= INFINITY_BITS {
            "High"
        } else if RISK_MEDIUM_BITS <= bits && bits <= INFINITY_BITS {
            "Medium"
        } else {
            "Low"
        },
        None => "N/A",
    }
}

/// The text of an optional string; nothing for a missing one.
pub open spec fn text_of(s: Option<String>) -> Option<Seq<char>> {
    match s {
        Some(s) => Some(s@),
        None => None,
    }
}

/// A first part followed, where there is a second, by a space and the second.
pub open spec fn spaced(first: Seq<char>, second: Option<Seq<char>>) -> Seq<char> {
    match second {
        Some(second) => first + " "@ + second,
        None => first,
    }
}

fn spaced_string(first: &String, second: &Option<String>) -> (text: String)
    ensures
        text@ == spaced(first@, text_of(*second)),
{
    let mut text = first.clone();
    match second {
        Some(second) => {
            text.append(" ");
            text.append(second.as_str());
        },
        None => {},
    }
    text
}

impl Address {
    /// The lines of the address: street with house number, postal code with
    /// city (or the city alone), and country, each where it is known.
    pub open spec fn lines(&self) -> Seq<Seq<char>> {
        let street = match self.street {
            Some(street) => seq![spaced(street@, text_of(self.house_number))],
            None => seq![],
        };
        let place = match self.postal_code {
            Some(postal_code) => seq![spaced(postal_code@, text_of(self.city))],
            None => match self.city {
                Some(city) => seq![city@],
                None => seq![],
            },
        };
        let country = match self.country {
            Some(country) => seq![country@],
            None => seq![],
        };
        street + place + country
    }

    /// The address on one line, its parts separated by a comma and a space.
    pub fn format_full(&self) -> (text: String)
        ensures
            text@ == joined(self.lines(), ", "@),
    {
        let mut parts: Vec<String> = Vec::new();
        match &self.street {
            Some(street) => {
                parts.push(spaced_string(street, &self.house_number));
            },
            None => {},
        }
        match &self.postal_code {
            Some(postal_code) => {
                parts.push(spaced_string(postal_code, &self.city));
            },
            None => match &self.city {
                Some(city) => {
                    parts.push(city.clone());
                },
                None => {},
            },
        }
        match &self.country {
            Some(country) => {
                parts.push(country.clone());
            },
            None => {},
        }
        assert(views(parts@) =~= self.lines());
        join(&parts, ", ")
    }
}

impl Partner {
    /// The given names of a partner without a full name: first name and last
    /// name, each where it is known.
    pub open spec fn given_names(&self) -> Seq<Seq<char>> {
        let first = match self.first_name {
            Some(first) => seq![first@],
            None => seq![],
        };
        let last = match self.last_name {
            Some(last) => seq![last@],
            None => seq![],
        };
        first + last
    }

    /// What [`Partner::format_name`] returns.
    pub open spec fn display_name(&self) -> Seq<char> {
        match self.name {
            Some(name) => name@,
            None => if self.given_names().len() == 0 {
                "Unknown"@
            } else {
                joined(self.given_names(), " "@)
            },
        }
    }

    /// The name to show: the full name where there is one, else first and
    /// last name, else "Unknown".
    pub fn format_name(&self) -> (text: String)
        ensures
            text@ == self.display_name(),
    {
        match &self.name {
            Some(name) => name.clone(),
            None => {
                let mut parts: Vec<String> = Vec::new();
                match &self.first_name {
                    Some(first) => {
                        parts.push(first.clone());
                    },
                    None => {},
                }
                match &self.last_name {
                    Some(last) => {
                        parts.push(last.clone());
                    },
                    None => {},
                }
                assert(views(parts@) =~= self.given_names());
                if parts.len() == 0 {
                    "Unknown".to_owned()
                } else {
                    join(&parts, " ")
                }
            },
        }
    }
}

impl Company {
    /// Number of partners.
    pub fn partner_count(&self) -> (n: usize)
        ensures
            n == self.partners@.len(),
    {
        self.partners.len()
    }

    /// Number of register entries.
    pub fn registry_entry_count(&self) -> (n: usize)
        ensures
            n == self.registry_entries@.len(),
    {
        self.registry_entries.len()
    }

    /// Whether anything is known about the company's risk.
    pub fn has_risk_data(&self) -> (yes: bool)
        ensures
            yes == (self.risk_score.is_some() || self.risk_indicators@.len() > 0),
    {
        self.risk_score.is_some() || self.risk_indicators.len() > 0
    }

    /// The name of the company's risk level.
    pub fn risk_level(&self) -> (name: &str)
        ensures
            name@ == risk_level_name(self.risk_score),
    {
        risk_level_text(self.risk_score)
    }
}

impl CompanySummary {
    /// The name of the company's risk level.
    pub fn risk_level(&self) -> (name: &str)
        ensures
            name@ == risk_level_name(self.risk_score),
    {
        risk_level_text(self.risk_score)
    }
}

/// The label of a risk indicator; an unknown key is its own label.
pub open spec fn indicator_label(key: Seq<char>) -> Seq<char> {
    if key == "debt_to_equity_ratio"@ {
        "Debt to Equity Ratio"@
    } else if key == "cash_ratio"@ {
        "Cash Ratio"@
    } else if key == "debt_to_assets"@ {
        "Debt to Assets"@
    } else if key == "equity_ratio"@ {
        "Equity Ratio"@
    } else if key == "concentration_risk"@ {
        "Concentration Risk"@
    } else if key == "deferred_income_reliance"@ {
        "Deferred Income Reliance"@
    } else if key == "balance_sheet_volatility"@ {
        "Balance Sheet Volatility"@
    } else if key == "irregular_fiscal_year"@ {
        "Irregular Fiscal Year"@
    } else if key == "compliance_status"@ {
        "Compliance Status"@
    } else if key == "growth_revenue"@ {
        "Revenue Growth"@
    } else if key == "operational_result_profit"@ {
        "Operational Profit"@
    } else {
        key
    }
}

/// The label under which the risk indicator `key` is shown.
pub fn get_risk_indicator_name(key: &str) -> (label: &str)
    ensures
        label@ == indicator_label(key@),
{
    if same_text(key, "debt_to_equity_ratio") {
        "Debt to Equity Ratio"
    } else if same_text(key, "cash_ratio") {
        "Cash Ratio"
    } else if same_text(key, "debt_to_assets") {
        "Debt to Assets"
    } else if same_text(key, "equity_ratio") {
        "Equity Ratio"
    } else if same_text(key, "concentration_risk") {
        "Concentration Risk"
    } else if same_text(key, "deferred_income_reliance") {
        "Deferred Income Reliance"
    } else if same_text(key, "balance_sheet_volatility") {
        "Balance Sheet Volatility"
    } else if same_text(key, "irregular_fiscal_year") {
        "Irregular Fiscal Year"
    } else if same_text(key, "compliance_status") {
        "Compliance Status"
    } else if same_text(key, "growth_revenue") {
        "Revenue Growth"
    } else if same_text(key, "operational_result_profit") {
        "Operational Profit"
    } else {
        key
    }
}

} // verus!
