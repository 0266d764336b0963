//! Transaction records and the values they are made of.

use crate::capture::{group_number, number_in_group};
use crate::matcher::{capture_groups, captured_groups, compile, compiled, groups_view};
use vstd::prelude::*;

verus! {

/// The budget category that an expense is booked under.
#[derive(Debug, Clone, Copy, PartialEq, Eq, Structural)]
pub enum BusinessType {
    Unclassified,
    GeneralBusiness,
    PledgedBusiness,
    OngoingBusiness,
}

impl Default for BusinessType {
    fn default() -> (r: Self)
        ensures
            r == BusinessType::Unclassified,
    {
        BusinessType::Unclassified
    }
}

impl BusinessType {
    /// The label that report cells show for this category.
    pub open spec fn label(self) -> Seq<char> {
        match self {
            BusinessType::Unclassified => "미정"@,
            BusinessType::GeneralBusiness => "일반사업"@,
            BusinessType::PledgedBusiness => "공약사업"@,
            BusinessType::OngoingBusiness => "상시사업"@,
        }
    }

    /// The label that report cells show for this category.
    pub fn variant_name(&self) -> (name: &'static str)
        ensures
            name@ == self.label(),
    {
        match self {
            BusinessType::Unclassified => "미정",
            BusinessType::GeneralBusiness => "일반사업",
            BusinessType::PledgedBusiness => "공약사업",
            BusinessType::OngoingBusiness => "상시사업",
        }
    }
}

/// A calendar date as the statement prints it.
#[derive(Debug, Clone, Copy, PartialEq, Eq, Structural)]
pub struct Date {
    pub year: u16,
    pub month: u8,
    pub day: u8,
}

/// The expression that finds a `YYYY.MM.DD` date inside a text.
pub open spec fn date_pattern() -> Seq<char> {
    "(\\d{4})\\.(\\d{2})\\.(\\d{2})"@
}

/// The date that the capture groups of the date expression spell: year,
/// month and day in groups 1 to 3, the month within 1..=12 and the day
/// within 1..=31.
pub open spec fn date_of_groups(groups: Option<Seq<Option<Seq<char>>>>) -> Option<Date> {
    match groups {
        None => None,
        Some(gs) => match (
            group_number(gs, 1, u16::MAX as nat),
            group_number(gs, 2, u8::MAX as nat),
            group_number(gs, 3, u8::MAX as nat),
        ) {
            (Some(y), Some(m), Some(d)) => {
                let date = Date { year: y as u16, month: m as u8, day: d as u8 };
                if date.wf() {
                    Some(date)
                } else {
                    None
                }
            },
            _ => None,
        },
    }
}

/// The first date that `text` holds, as the engine finds it.
pub open spec fn date_in_text(text: Seq<char>) -> Option<Date> {
    match compiled(date_pattern()) {
        Some(regex) => date_of_groups(captured_groups(regex, text)),
        None => None,
    }
}

impl Date {
    /// Whether month and day lie within a calendar's bounds.
    pub open spec fn wf(self) -> bool {
        1 <= self.month <= 12 && 1 <= self.day <= 31
    }

    /// Builds the date that the capture groups of a date search spell.
    /// There is none where the search did not match, where a part is not a
    /// number of its width, or where month or day is out of bounds.
    pub fn from_groups(groups: &Option<Vec<Option<String>>>) -> (r: Option<Date>)
        ensures
            r == date_of_groups(groups_view(*groups)),
            r is Some ==> r->0.wf(),
    {
        match groups {
            None => None,
            Some(list) => {
                let year = number_in_group(list, 1, 65535);
                let month = number_in_group(list, 2, 255);
                let day = number_in_group(list, 3, 255);
                match (year, month, day) {
                    (Some(y), Some(m), Some(d)) => {
                        if 1 <= m && m <= 12 && 1 <= d && d <= 31 {
                            Some(Date { year: y as u16, month: m as u8, day: d as u8 })
                        } else {
                            None
                        }
                    },
                    _ => None,
                }
            },
        }
    }

    /// Finds the first `YYYY.MM.DD` in `date` and reads it. There is no date
    /// where the text holds none, or where what it holds is not a date.
    pub fn new(date: &str) -> (r: Option<Date>)
        ensures
            r == date_in_text(date@),
            r is Some ==> r->0.wf(),
    {
        match compile("(\\d{4})\\.(\\d{2})\\.(\\d{2})") {
            Ok(regex) => {
                let groups = capture_groups(&regex, date);
                Date::from_groups(&groups)
            },
            Err(_) => None,
        }
    }
}

/// One transaction of the ledger.
#[derive(Debug, Clone, PartialEq)]
pub struct Data {
    pub date: Date,
    pub business_type: BusinessType,
    pub business_name: Option<String>,
    pub cash_in: u32,
    pub cash_out: u32,
    /// The balance that the statement reports. Reports never copy it: they
    /// recompute the balance from `cash_in` and `cash_out`.
    pub balance: u32,
    pub remarks: Option<String>,
    pub receipt_num: Option<String>,
}

/// Collects the fields of a record. Date, both amounts and the balance must
/// be given before `build` yields a record.
#[derive(Default)]
pub struct DataBuilder {
    pub date: Option<Date>,
    pub business_type: BusinessType,
    pub business_name: Option<String>,
    pub cash_in: Option<u32>,
    pub cash_out: Option<u32>,
    pub balance: Option<u32>,
    pub remarks: Option<String>,
    pub receipt_num: Option<String>,
}

/// A copy of an optional text.
pub fn clone_text(text: &Option<String>) -> (r: Option<String>)
    ensures
        r == *text,
{
    match text {
        Some(t) => Some(t.clone()),
        None => None,
    }
}

impl DataBuilder {
    /// A builder with no field given and the category unclassified.
    pub fn new() -> (r: Self)
        ensures
            r == (DataBuilder {
                date: None,
                business_type: BusinessType::Unclassified,
                business_name: None,
                cash_in: None,
                cash_out: None,
                balance: None,
                remarks: None,
                receipt_num: None,
            }),
    {
        DataBuilder {
            date: None,
            business_type: BusinessType::Unclassified,
            business_name: None,
            cash_in: None,
            cash_out: None,
            balance: None,
            remarks: None,
            receipt_num: None,
        }
    }

    /// The message for the first required field that was not given, in
    /// the order date, income, expense, balance.
    pub open spec fn missing(self) -> Option<Seq<char>> {
        if self.date is None {
            Some("No DATE provided"@)
        } else if self.cash_in is None {
            Some("No CASH_IN provided"@)
        } else if self.cash_out is None {
            Some("No CASH_OUT provided"@)
        } else if self.balance is None {
            Some("No BALANCE provided"@)
        } else {
            None
        }
    }

    /// The record that the fields given so far make up.
    pub open spec fn record(self) -> Data
        recommends
            self.missing() is None,
    {
        Data {
            date: self.date->0,
            business_type: self.business_type,
            business_name: self.business_name,
            cash_in: self.cash_in->0,
            cash_out: self.cash_out->0,
            balance: self.balance->0,
            remarks: self.remarks,
            receipt_num: self.receipt_num,
        }
    }

    /// The record, if date, income, expense and balance were all given;
    /// otherwise the message for the first of them that was not.
    pub fn build(&self) -> (r: Result<Data, &'static str>)
        ensures
            match r {
                Ok(data) => self.missing() is None && data == self.record(),
                Err(message) => self.missing() == Some(message@),
            },
    {
        let date = match self.date {
            Some(date) => date,
            None => {
                return Err("No DATE provided");
            },
        };
        let cash_in = match self.cash_in {
            Some(amount) => amount,
            None => {
                return Err("No CASH_IN provided");
            },
        };
        let cash_out = match self.cash_out {
            Some(amount) => amount,
            None => {
                return Err("No CASH_OUT provided");
            },
        };
        let balance = match self.balance {
            Some(amount) => amount,
            None => {
                return Err("No BALANCE provided");
            },
        };
        Ok(
            Data {
                date,
                business_type: self.business_type,
                business_name: clone_text(&self.business_name),
                cash_in,
                cash_out,
                balance,
                remarks: clone_text(&self.remarks),
                receipt_num: clone_text(&self.receipt_num),
            },
        )
    }

    pub fn date(&mut self, date: Date) -> (r: &mut Self)
        ensures
            *r == (DataBuilder { date: Some(date), ..*old(self) }),
            *final(self) == *final(r),
    {
        self.date = Some(date);
        self
    }

    pub fn business_type(&mut self, business_type: BusinessType) -> (r: &mut Self)
        ensures
            *r == (DataBuilder { business_type, ..*old(self) }),
            *final(self) == *final(r),
    {
        self.business_type = business_type;
        self
    }

    pub fn business_name(&mut self, business_name: &str) -> (r: &mut Self)
        ensures
            r.business_name is Some && r.business_name->0@ == business_name@,
            *r == (DataBuilder { business_name: r.business_name, ..*old(self) }),
            *final(self) == *final(r),
    {
        self.business_name = Some(String::from_str(business_name));
        self
    }

    pub fn cash_in(&mut self, cash_in: u32) -> (r: &mut Self)
        ensures
            *r == (DataBuilder { cash_in: Some(cash_in), ..*old(self) }),
            *final(self) == *final(r),
    {
        self.cash_in = Some(cash_in);
        self
    }

    pub fn cash_out(&mut self, cash_out: u32) -> (r: &mut Self)
        ensures
            *r == (DataBuilder { cash_out: Some(cash_out), ..*old(self) }),
            *final(self) == *final(r),
    {
        self.cash_out = Some(cash_out);
        self
    }

    pub fn balance(&mut self, balance: u32) -> (r: &mut Self)
        ensures
            *r == (DataBuilder { balance: Some(balance), ..*old(self) }),
            *final(self) == *final(r),
    {
        self.balance = Some(balance);
        self
    }

    pub fn remarks(&mut self, remarks: &str) -> (r: &mut Self)
        ensures
            r.remarks is Some && r.remarks->0@ == remarks@,
            *r == (DataBuilder { remarks: r.remarks, ..*old(self) }),
            *final(self) == *final(r),
    {
        self.remarks = Some(String::from_str(remarks));
        self
    }

    pub fn receipt_num(&mut self, receipt_num: &str) -> (r: &mut Self)
        ensures
            r.receipt_num is Some && r.receipt_num->0@ == receipt_num@,
            *r == (DataBuilder { receipt_num: r.receipt_num, ..*old(self) }),
            *final(self) == *final(r),
    {
        self.receipt_num = Some(String::from_str(receipt_num));
        self
    }
}

} // verus!
