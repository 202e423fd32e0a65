//! The consolidate extension, which moves the expiry of a domain to a day
//! of the year.

use crate::common::{extension_view, Extension, NoExtension, ToXml, Wraps};
use crate::domain::update::DomainUpdate;
use crate::extensions::namestore::NameStore;
use crate::request::Transaction;
use crate::text::{push_char, push_two_digits, two_digit_text};
use crate::xml::{attribute, element, text_element, ElementView, XmlElement};
use vstd::prelude::*;
use vstd::string::StringExecFns;

verus! {

/// The namespace of the consolidate extension.
pub const XMLNS: &'static str = "http://www.verisign.com/epp/sync-1.0";

/// An offset from UTC of less than a day, in seconds; east is positive.
#[derive(Clone, Copy, Debug, PartialEq, Eq)]
pub struct UtcOffset {
    seconds: i32,
}

impl UtcOffset {
    /// The offset in seconds east of UTC.
    pub closed spec fn seconds(self) -> int {
        self.seconds as int
    }

    #[verifier::type_invariant]
    spec fn in_range(self) -> bool {
        -86_400 < self.seconds < 86_400
    }

    /// The offset of `seconds` east of UTC, if that is less than a day.
    pub fn east_opt(seconds: i32) -> (r: Option<UtcOffset>)
        ensures
            r is Some <==> -86_400 < seconds < 86_400,
            r matches Some(o) ==> o.seconds() == seconds,
    {
        if -86_400 < seconds && seconds < 86_400 {
            Some(UtcOffset { seconds })
        } else {
            None
        }
    }

    /// The offset as text: `+hh:mm`, followed by `:ss` where the offset has
    /// seconds.
    pub fn to_text(&self) -> (s: String)
        ensures
            s@ == offset_text(self.seconds()),
    {
        proof {
            use_type_invariant(self);
        }
        offset_string(self.seconds)
    }
}

/// An offset as text: the sign, the hours and the minutes with two digits
/// each and a colon between them, then a colon and the seconds with two
/// digits where they are not zero.
pub open spec fn offset_text(seconds: int) -> Seq<char> {
    let sign = if seconds < 0 {
        '-'
    } else {
        '+'
    };
    let a = if seconds < 0 {
        -seconds
    } else {
        seconds
    };
    let sec = a % 60;
    let min = (a / 60) % 60;
    let hour = (a / 60) / 60;
    seq![sign] + two_digit_text(hour as nat) + seq![':'] + two_digit_text(min as nat) + (if sec
        == 0 {
        Seq::empty()
    } else {
        seq![':'] + two_digit_text(sec as nat)
    })
}

/// The text of an offset of `seconds` east of UTC.
///
/// Trusted: calls `chrono::FixedOffset::east_opt`, which accepts every
/// offset of less than a day, and the `Display` of `chrono::FixedOffset`,
/// which writes the sign, the hours and the minutes with two digits each,
/// and the seconds where they are not zero.
#[verifier::external_body]
fn offset_string(seconds: i32) -> (s: String)
    requires
        -86_400 < seconds < 86_400,
    ensures
        s@ == offset_text(seconds as int),
{
    chrono::FixedOffset::east_opt(seconds).map(|tz| tz.to_string()).unwrap_or_default()
}

/// A day of the year, as the XML schema type `gMonthDay`.
#[derive(Debug, PartialEq)]
pub struct GMonthDay {
    pub month: u8,
    pub day: u8,
    pub timezone: Option<UtcOffset>,
}

/// The number of days of the longest `month` of any year.
pub open spec fn month_max_len(month: int) -> int {
    if month == 2 {
        29
    } else if month == 4 || month == 6 || month == 9 || month == 11 {
        30
    } else {
        31
    }
}

/// Why a month and a day are no day of the year, if they are none.
pub open spec fn month_day_error(month: int, day: int) -> Option<Seq<char>> {
    if !(1 <= month <= 12) {
        Some("Month value within GMonthDay should lie between 1 and 12"@)
    } else if !(1 <= day <= 31) {
        Some("Day value within GMonthDay should lie between 1 and 31"@)
    } else if day > month_max_len(month) {
        Some("Day value within GMonthDay is to big for specified month"@)
    } else {
        None
    }
}

/// The text of a day of the year: `--mm-dd`, followed by the offset where
/// there is one.
pub open spec fn month_day_text(month: int, day: int, offset: Option<int>) -> Seq<char> {
    seq!['-', '-'] + two_digit_text(month as nat) + seq!['-'] + two_digit_text(day as nat) + (
    match offset {
        Some(seconds) => offset_text(seconds),
        None => Seq::empty(),
    })
}

/// The seconds of an optional offset.
pub open spec fn option_offset_view(o: Option<UtcOffset>) -> Option<int> {
    match o {
        Some(x) => Some(x.seconds()),
        None => None,
    }
}

impl GMonthDay {
    /// The day `day` of the month `month`, if there is such a day in any
    /// year; the reason otherwise.
    pub fn new(month: u8, day: u8, timezone: Option<UtcOffset>) -> (r: Result<GMonthDay, String>)
        ensures
            match month_day_error(month as int, day as int) {
                Some(reason) => r matches Err(e) && e@ == reason,
                None => r matches Ok(v) && v.month == month && v.day == day && v.timezone
                    == timezone,
            },
    {
        if !(1 <= month && month <= 12) {
            return Err(
                String::from_str("Month value within GMonthDay should lie between 1 and 12"),
            );
        }
        if !(1 <= day && day <= 31) {
            return Err(String::from_str("Day value within GMonthDay should lie between 1 and 31"));
        }
        let month_max_len: [u8; 12] = [31, 29, 31, 30, 31, 30, 31, 31, 30, 31, 30, 31];
        if day > month_max_len[(month - 1) as usize] {
            return Err(
                String::from_str("Day value within GMonthDay is to big for specified month"),
            );
        }
        Ok(GMonthDay { month, day, timezone })
    }

    /// The day as text.
    pub fn to_text(&self) -> (s: String)
        ensures
            s@ == month_day_text(
                self.month as int,
                self.day as int,
                option_offset_view(self.timezone),
            ),
    {
        let mut s = String::from_str("--");
        proof {
            reveal_strlit("--");
        }
        push_two_digits(&mut s, self.month as u64);
        push_char(&mut s, '-');
        push_two_digits(&mut s, self.day as u64);
        match &self.timezone {
            Some(tz) => {
                let t = tz.to_text();
                s.append(t.as_str());
            },
            None => {},
        }
        assert(s@ =~= month_day_text(
            self.month as int,
            self.day as int,
            option_offset_view(self.timezone),
        ));
        s
    }
}

/// The consolidate extension.
#[derive(Debug)]
pub struct Sync {
    /// The namespace of the extension.
    pub xmlns: String,
    /// The day of the year on which the domain is to expire.
    pub exp: String,
}

/// The `<sync:update>` element.
pub open spec fn sync_view(xmlns: Seq<char>, exp: Seq<char>) -> ElementView {
    element(
        "sync:update"@,
        seq![attribute("xmlns:sync"@, xmlns)],
        seq![text_element("sync:expMonthDay"@, exp)],
    )
}

impl Sync {
    /// The extension that moves the expiry to `expiration`.
    pub fn new(expiration: GMonthDay) -> (r: Sync)
        ensures
            r.xml() == sync_view(
                XMLNS@,
                month_day_text(
                    expiration.month as int,
                    expiration.day as int,
                    option_offset_view(expiration.timezone),
                ),
            ),
    {
        Sync { xmlns: String::from_str(XMLNS), exp: expiration.to_text() }
    }
}

impl ToXml for Sync {
    open spec fn xml(&self) -> ElementView {
        sync_view(self.xmlns@, self.exp@)
    }

    fn to_xml(&self) -> (e: XmlElement) {
        let mut e = XmlElement::new("sync:update");
        e.add_attribute("xmlns:sync", self.xmlns.as_str());
        e.add_child(XmlElement::with_text("sync:expMonthDay", self.exp.as_str()));
        assert(e@.attributes =~= self.xml().attributes);
        assert(e@.children =~= self.xml().children);
        e
    }
}

/// The consolidate extension together with the NameStore extension.
#[derive(Debug)]
pub struct SyncWithNameStore {
    pub sync: Sync,
    pub namestore: NameStore,
}

/// The `<extension>` element that holds both extensions: the consolidate
/// extension first, the NameStore extension second.
#[derive(Debug)]
pub struct Wrapper(pub SyncWithNameStore);

/// The `<extension>` element for both extensions, in this order.
pub open spec fn sync_with_namestore_view(ext: SyncWithNameStore) -> ElementView {
    extension_view(seq![ext.sync.xml(), ext.namestore.xml()])
}

impl From<SyncWithNameStore> for Wrapper {
    fn from(inner: SyncWithNameStore) -> (w: Wrapper) {
        Wrapper(inner)
    }
}

impl vstd::std_specs::convert::FromSpecImpl<SyncWithNameStore> for Wrapper {
    open spec fn obeys_from_spec() -> bool {
        true
    }

    open spec fn from_spec(inner: SyncWithNameStore) -> Wrapper {
        Wrapper(inner)
    }
}

impl Wraps<SyncWithNameStore> for Wrapper {
    open spec fn wire(&self) -> Option<ElementView> {
        Some(sync_with_namestore_view(self.0))
    }

    open spec fn wrapped(ext: SyncWithNameStore) -> Option<ElementView> {
        Some(sync_with_namestore_view(ext))
    }

    fn wrap(ext: SyncWithNameStore) -> (w: Self) {
        Wrapper::from(ext)
    }

    fn to_wire(&self) -> (r: Option<XmlElement>) {
        let mut e = XmlElement::new("extension");
        e.add_child(self.0.sync.to_xml());
        e.add_child(self.0.namestore.to_xml());
        assert(e@.children =~= sync_with_namestore_view(self.0).children);
        Some(e)
    }
}

impl Transaction<Sync> for DomainUpdate {
    type ExtensionWrapper = Extension<Sync>;

    type Response = <DomainUpdate as Transaction<NoExtension>>::Response;

    type ExtensionResponse = NoExtension;
}

impl Transaction<SyncWithNameStore> for DomainUpdate {
    type ExtensionWrapper = Wrapper;

    type Response = <DomainUpdate as Transaction<NoExtension>>::Response;

    type ExtensionResponse = NameStore;
}

} // verus!
