use epp_client::common::{Error, NoExtension};
use epp_client::contact::check::ContactCheck;
use epp_client::contact::delete::ContactDelete;
use epp_client::contact::info::EppContactInfo;
use epp_client::domain::check::DomainCheck;
use epp_client::domain::delete::DomainDelete;
use epp_client::domain::transfer::DomainTransfer;
use epp_client::domain::update::{DomainChangeInfo, DomainUpdate};
use epp_client::extensions::consolidate::{GMonthDay, Sync, SyncWithNameStore, UtcOffset, Wrapper};
use epp_client::extensions::namestore::NameStore;
use epp_client::extensions::rgp::request::RgpRestoreRequest;
use epp_client::host::check::HostCheck;
use epp_client::host::create::{HostAddr, HostCreate};
use epp_client::host::delete::HostDelete;
use epp_client::logout::Logout;
use epp_client::message::ack::MessageAck;
use epp_client::message::poll::MessagePoll;
use epp_client::reader::read_document;
use epp_client::request::{Command, Transaction};

const CLTRID: &str = "cltrid:1626454866";

fn request_document(command: &str, extension: &str) -> String {
    format!(
        "<?xml version=\"1.0\" encoding=\"UTF-8\" standalone=\"no\"?>\r\n<epp xmlns=\"urn:ietf:params:xml:ns:epp-1.0\"><command>{}{}<clTRID>{}</clTRID></command></epp>",
        command, extension, CLTRID
    )
}

fn empty_change() -> DomainChangeInfo {
    DomainChangeInfo { registrant: None, auth_info: None }
}

#[test]
fn delete_command() {
    let xml = request_document(
        "<delete><contact:delete xmlns:contact=\"urn:ietf:params:xml:ns:contact-1.0\"><contact:id>eppdev-contact-3</contact:id></contact:delete></delete>",
        "",
    );

    let object = ContactDelete::new("eppdev-contact-3");

    let serialized =
        <ContactDelete as Transaction<NoExtension>>::serialize_request(object, None, CLTRID)
            .unwrap();

    assert_eq!(xml, serialized);
}

#[test]
fn consolidate_command() {
    let xml = request_document(
        "<update><domain:update xmlns:domain=\"urn:ietf:params:xml:ns:domain-1.0\"><domain:name>eppdev.com</domain:name><domain:chg/></domain:update></update>",
        "<extension><sync:update xmlns:sync=\"http://www.verisign.com/epp/sync-1.0\"><sync:expMonthDay>--05-31</sync:expMonthDay></sync:update></extension>",
    );

    let exp = GMonthDay::new(5, 31, None).unwrap();

    let consolidate_ext = Sync::new(exp);

    let mut object = DomainUpdate::new("eppdev.com");

    object.info(empty_change());

    let serialized = <DomainUpdate as Transaction<Sync>>::serialize_request(
        object,
        Some(consolidate_ext),
        CLTRID,
    )
    .unwrap();

    assert_eq!(xml, serialized);
}

#[test]
fn consolidate_namestore() {
    let xml = request_document(
        "<update><domain:update xmlns:domain=\"urn:ietf:params:xml:ns:domain-1.0\"><domain:name>eppdev.com</domain:name><domain:chg/></domain:update></update>",
        "<extension><sync:update xmlns:sync=\"http://www.verisign.com/epp/sync-1.0\"><sync:expMonthDay>--01-15</sync:expMonthDay></sync:update><namestoreExt:namestoreExt xmlns:namestoreExt=\"http://www.verisign-grs.com/epp/namestoreExt-1.1\"><namestoreExt:subProduct>com</namestoreExt:subProduct></namestoreExt:namestoreExt></extension>",
    );

    let exp = GMonthDay::new(1, 15, None).unwrap();

    let consolidate_ext = Sync::new(exp);
    let namestore_ext = NameStore::new("com");

    let ext = SyncWithNameStore { sync: consolidate_ext, namestore: namestore_ext };

    let mut object = DomainUpdate::new("eppdev.com");

    object.info(empty_change());

    let serialized = <DomainUpdate as Transaction<SyncWithNameStore>>::serialize_request(
        object,
        Some(ext),
        CLTRID,
    )
    .unwrap();

    assert_eq!(xml, serialized);
}

#[test]
fn namestore_command() {
    let xml = request_document(
        "<check><domain:check xmlns:domain=\"urn:ietf:params:xml:ns:domain-1.0\"><domain:name>example1.com</domain:name><domain:name>example2.com</domain:name><domain:name>example3.com</domain:name></domain:check></check>",
        "<extension><namestoreExt:namestoreExt xmlns:namestoreExt=\"http://www.verisign-grs.com/epp/namestoreExt-1.1\"><namestoreExt:subProduct>com</namestoreExt:subProduct></namestoreExt:namestoreExt></extension>",
    );

    let namestore_ext = NameStore::new("com");

    let object = DomainCheck::new(&["example1.com", "example2.com", "example3.com"]);

    let serialized = <DomainCheck as Transaction<NameStore>>::serialize_request(
        object,
        Some(namestore_ext),
        CLTRID,
    )
    .unwrap();

    assert_eq!(xml, serialized);
}

#[test]
fn request_command() {
    let xml = request_document(
        "<update><domain:update xmlns:domain=\"urn:ietf:params:xml:ns:domain-1.0\"><domain:name>eppdev.com</domain:name><domain:chg/></domain:update></update>",
        "<extension><rgp:update xmlns:rgp=\"urn:ietf:params:xml:ns:rgp-1.0\"><rgp:restore op=\"request\"/></rgp:update></extension>",
    );

    let domain_restore_request = RgpRestoreRequest::new();

    let mut object = DomainUpdate::new("eppdev.com");

    let change_info = DomainChangeInfo { registrant: None, auth_info: None };

    object.info(change_info);

    let serialized = <DomainUpdate as Transaction<RgpRestoreRequest>>::serialize_request(
        object,
        Some(domain_restore_request),
        CLTRID,
    )
    .unwrap();

    assert_eq!(xml, serialized);
}

#[test]
fn check_command() {
    let xml = request_document(
        "<check><host:check xmlns:host=\"urn:ietf:params:xml:ns:host-1.0\"><host:name>ns1.eppdev-1.com</host:name><host:name>host1.eppdev-1.com</host:name></host:check></check>",
        "",
    );

    let object = HostCheck::new(&["ns1.eppdev-1.com", "host1.eppdev-1.com"]);

    let serialized =
        <HostCheck as Transaction<NoExtension>>::serialize_request(object, None, CLTRID).unwrap();

    assert_eq!(xml, serialized);
}

#[test]
fn create_command() {
    let xml = request_document(
        "<create><host:create xmlns:host=\"urn:ietf:params:xml:ns:host-1.0\"><host:name>host1.eppdev-1.com</host:name><host:addr ip=\"v4\">29.245.122.14</host:addr><host:addr ip=\"v6\">2404:6800:4001:801::200e</host:addr></host:create></create>",
        "",
    );

    let addresses = vec![
        HostAddr::new("v4", "29.245.122.14"),
        HostAddr::new("v6", "2404:6800:4001:801::200e"),
    ];

    let object = HostCreate::new("host1.eppdev-1.com", addresses);

    let serialized =
        <HostCreate as Transaction<NoExtension>>::serialize_request(object, None, CLTRID).unwrap();

    assert_eq!(xml, serialized);
}

#[test]
fn ack_command() {
    let xml = request_document("<poll op=\"ack\" msgID=\"12345\"/>", "");

    let object = MessageAck::new(12345);

    let serialized = object.serialize_request(None, CLTRID).unwrap();

    assert_eq!(xml, serialized);
}

#[test]
fn domain_transfer_commands() {
    let cases = vec![
        (
            DomainTransfer::new("eppdev-transfer.com", Some(1), "epP4uthd#v"),
            "<transfer op=\"request\"><domain:transfer xmlns:domain=\"urn:ietf:params:xml:ns:domain-1.0\"><domain:name>eppdev-transfer.com</domain:name><domain:period unit=\"y\">1</domain:period><domain:authInfo><domain:pw>epP4uthd#v</domain:pw></domain:authInfo></domain:transfer></transfer>",
        ),
        (
            DomainTransfer::new("eppdev-transfer.com", None, "pw"),
            "<transfer op=\"request\"><domain:transfer xmlns:domain=\"urn:ietf:params:xml:ns:domain-1.0\"><domain:name>eppdev-transfer.com</domain:name><domain:authInfo><domain:pw>pw</domain:pw></domain:authInfo></domain:transfer></transfer>",
        ),
        (
            DomainTransfer::query("eppdev-transfer.com", "pw"),
            "<transfer op=\"query\"><domain:transfer xmlns:domain=\"urn:ietf:params:xml:ns:domain-1.0\"><domain:name>eppdev-transfer.com</domain:name><domain:authInfo><domain:pw>pw</domain:pw></domain:authInfo></domain:transfer></transfer>",
        ),
        (
            DomainTransfer::approve("eppdev.com"),
            "<transfer op=\"approve\"><domain:transfer xmlns:domain=\"urn:ietf:params:xml:ns:domain-1.0\"><domain:name>eppdev.com</domain:name></domain:transfer></transfer>",
        ),
        (
            DomainTransfer::reject("eppdev.com"),
            "<transfer op=\"reject\"><domain:transfer xmlns:domain=\"urn:ietf:params:xml:ns:domain-1.0\"><domain:name>eppdev.com</domain:name></domain:transfer></transfer>",
        ),
        (
            DomainTransfer::cancel("eppdev.com"),
            "<transfer op=\"cancel\"><domain:transfer xmlns:domain=\"urn:ietf:params:xml:ns:domain-1.0\"><domain:name>eppdev.com</domain:name></domain:transfer></transfer>",
        ),
    ];
    for (object, command) in cases {
        let serialized =
            <DomainTransfer as Transaction<NoExtension>>::serialize_request(object, None, CLTRID)
                .unwrap();
        assert_eq!(request_document(command, ""), serialized);
    }
}

#[test]
fn other_commands() {
    assert_eq!(
        <ContactCheck as Transaction<NoExtension>>::serialize_request(
            ContactCheck::new(&["eppdev-contact-1", "eppdev-contact-2"]),
            None,
            CLTRID
        )
        .unwrap(),
        request_document(
            "<check><contact:check xmlns:contact=\"urn:ietf:params:xml:ns:contact-1.0\"><contact:id>eppdev-contact-1</contact:id><contact:id>eppdev-contact-2</contact:id></contact:check></check>",
            ""
        )
    );
    assert_eq!(
        <DomainDelete as Transaction<NoExtension>>::serialize_request(
            DomainDelete::new("eppdev.com"),
            None,
            CLTRID
        )
        .unwrap(),
        request_document(
            "<delete><domain:delete xmlns:domain=\"urn:ietf:params:xml:ns:domain-1.0\"><domain:name>eppdev.com</domain:name></domain:delete></delete>",
            ""
        )
    );
    assert_eq!(
        <HostDelete as Transaction<NoExtension>>::serialize_request(
            HostDelete::new("ns1.eppdev-1.com"),
            None,
            CLTRID
        )
        .unwrap(),
        request_document(
            "<delete><host:delete xmlns:host=\"urn:ietf:params:xml:ns:host-1.0\"><host:name>ns1.eppdev-1.com</host:name></host:delete></delete>",
            ""
        )
    );
    assert_eq!(
        Logout.serialize_request(None, CLTRID).unwrap(),
        request_document("<logout/>", "")
    );
    assert_eq!(
        MessagePoll::new().serialize_request(None, CLTRID).unwrap(),
        request_document("<poll op=\"req\"/>", "")
    );
}

#[test]
fn contact_info_command() {
    let object = EppContactInfo::new("eppdev-contact-100", "epP4uthd#v", CLTRID);
    assert_eq!(object.client_tr_id, CLTRID);
    assert!(object.extension.is_none());
    let command = object.serialize::<NoExtension>().to_text();
    assert_eq!(
        command,
        "<command><info><contact:info xmlns:contact=\"urn:ietf:params:xml:ns:contact-1.0\"><contact:id>eppdev-contact-100</contact:id><contact:authInfo><contact:pw>epP4uthd#v</contact:pw></contact:authInfo></contact:info></info><clTRID>cltrid:1626454866</clTRID></command>"
    );
}

#[test]
fn command_places_the_extension_between_request_and_identifier() {
    let command: Command<Logout, epp_client::common::Extension<NameStore>> = Command {
        command: Logout,
        extension: Some(epp_client::common::Extension { data: NameStore::new("net") }),
        client_tr_id: "abc".to_string(),
    };
    let e = command.serialize::<NameStore>();
    assert_eq!(e.children.len(), 3);
    assert_eq!(e.children[0].name, "logout");
    assert_eq!(e.children[1].name, "extension");
    assert_eq!(e.children[2].name, "clTRID");
    assert_eq!(e.children[2].text, "abc");
}

#[test]
fn empty_extension_contributes_nothing() {
    let with_marker = <ContactDelete as Transaction<NoExtension>>::serialize_request(
        ContactDelete::new("c1"),
        Some(NoExtension),
        CLTRID,
    )
    .unwrap();
    let without = <ContactDelete as Transaction<NoExtension>>::serialize_request(
        ContactDelete::new("c1"),
        None,
        CLTRID,
    )
    .unwrap();
    assert_eq!(with_marker, without);
    assert!(!without.contains("<extension"));
    let root = read_document(&without).unwrap();
    assert!(root.children[0].child("extension").is_none());
    assert_eq!(root.children[0].children.len(), 2);
}

#[test]
fn contact_delete_with_namestore() {
    let serialized = <ContactDelete as Transaction<NameStore>>::serialize_request(
        ContactDelete::new("eppdev-contact-3"),
        Some(NameStore::new("com")),
        CLTRID,
    )
    .unwrap();
    assert!(serialized.contains(
        "<extension><namestoreExt:namestoreExt xmlns:namestoreExt=\"http://www.verisign-grs.com/epp/namestoreExt-1.1\"><namestoreExt:subProduct>com</namestoreExt:subProduct></namestoreExt:namestoreExt></extension>"
    ));
}

#[test]
fn envelope_round_trip() {
    let serialized = <DomainTransfer as Transaction<NameStore>>::serialize_request(
        DomainTransfer::new("a<b>&\"c'.com", Some(2), "p&w"),
        Some(NameStore::new("com")),
        "ABC-12345",
    )
    .unwrap();
    assert!(serialized.contains("<domain:name>a&lt;b&gt;&amp;&quot;c&apos;.com</domain:name>"));
    let root = read_document(&serialized).unwrap();
    assert_eq!(root.name, "epp");
    assert_eq!(root.attribute("xmlns").unwrap(), "urn:ietf:params:xml:ns:epp-1.0");
    let command = &root.children[0];
    assert_eq!(command.name, "command");
    assert_eq!(command.children.len(), 3);
    assert_eq!(command.child_text("clTRID").unwrap(), "ABC-12345");
    let transfer = &command.children[0];
    assert_eq!(transfer.attribute("op").unwrap(), "request");
    let data = transfer.child("transfer").unwrap();
    assert_eq!(data.child_text("name").unwrap(), "a<b>&\"c'.com");
    assert_eq!(data.child_text("period").unwrap(), "2");
    assert_eq!(data.child("period").unwrap().attribute("unit").unwrap(), "y");
    assert_eq!(data.child("authInfo").unwrap().child_text("pw").unwrap(), "p&w");
    let namestore = command.children[1].child("namestoreExt").unwrap();
    assert_eq!(namestore.child_text("subProduct").unwrap(), "com");
    assert_eq!(format!("{}{}", epp_client::request::EPP_XML_HEADER, root.to_text()), serialized);
}

#[test]
fn a_name_that_is_no_xml_name_is_refused() {
    let bad = epp_client::xml::XmlElement::new("two words");
    assert!(matches!(epp_client::request::write_document(&bad), Err(Error::Xml)));
    let empty = epp_client::xml::XmlElement::new("");
    assert!(matches!(epp_client::request::write_document(&empty), Err(Error::Xml)));
    let mut attr = epp_client::xml::XmlElement::new("a");
    attr.add_attribute("x=y", "1");
    assert!(matches!(epp_client::request::write_document(&attr), Err(Error::Xml)));
    let mut mixed = epp_client::xml::XmlElement::with_text("a", "text");
    mixed.add_child(epp_client::xml::XmlElement::new("b"));
    assert!(matches!(epp_client::request::write_document(&mixed), Err(Error::Xml)));
}

#[test]
fn a_request_without_its_namespace_is_refused() {
    let mut request = ContactDelete::new("eppdev-contact-3");
    request.contact.xmlns = String::new();
    let r = <ContactDelete as Transaction<NoExtension>>::serialize_request(request, None, CLTRID);
    assert!(matches!(r, Err(Error::Xml)));
    let mut ext = NameStore::new("com");
    ext.xmlns.clear();
    let r = <ContactDelete as Transaction<NameStore>>::serialize_request(
        ContactDelete::new("eppdev-contact-3"),
        Some(ext),
        CLTRID,
    );
    assert!(matches!(r, Err(Error::Xml)));
    for (name, value, ok) in [
        ("xmlns", "", false),
        ("xmlns:p", "", false),
        ("xmlns:p", "urn:x", true),
        ("xmlns", "urn:x", true),
        ("xmlnsx", "", true),
        ("xml", "", true),
        ("other", "", true),
    ] {
        let mut e = epp_client::xml::XmlElement::new("a");
        e.add_attribute(name, value);
        assert_eq!(e.is_well_formed(), ok, "{} {:?}", name, value);
    }
}

#[test]
fn month_day_is_checked() {
    assert_eq!(
        GMonthDay::new(0, 1, None),
        Err("Month value within GMonthDay should lie between 1 and 12".to_string())
    );
    assert_eq!(
        GMonthDay::new(13, 1, None),
        Err("Month value within GMonthDay should lie between 1 and 12".to_string())
    );
    assert_eq!(
        GMonthDay::new(1, 0, None),
        Err("Day value within GMonthDay should lie between 1 and 31".to_string())
    );
    assert_eq!(
        GMonthDay::new(1, 32, None),
        Err("Day value within GMonthDay should lie between 1 and 31".to_string())
    );
    assert_eq!(
        GMonthDay::new(2, 30, None),
        Err("Day value within GMonthDay is to big for specified month".to_string())
    );
    assert_eq!(
        GMonthDay::new(4, 31, None),
        Err("Day value within GMonthDay is to big for specified month".to_string())
    );
    assert_eq!(GMonthDay::new(2, 29, None), Ok(GMonthDay { month: 2, day: 29, timezone: None }));
    assert_eq!(GMonthDay::new(12, 31, None).unwrap().to_text(), "--12-31");
    assert_eq!(GMonthDay::new(1, 1, None).unwrap().to_text(), "--01-01");
}

#[test]
fn month_day_with_offset() {
    let east = UtcOffset::east_opt(5 * 3600 + 30 * 60);
    assert_eq!(GMonthDay::new(5, 31, east).unwrap().to_text(), "--05-31+05:30");
    let west = UtcOffset::east_opt(-8 * 3600);
    assert_eq!(GMonthDay::new(11, 9, west).unwrap().to_text(), "--11-09-08:00");
    let odd = UtcOffset::east_opt(3600 + 62);
    assert_eq!(odd.unwrap().to_text(), "+01:01:02");
    assert_eq!(UtcOffset::east_opt(0).unwrap().to_text(), "+00:00");
    assert_eq!(UtcOffset::east_opt(-86_399).unwrap().to_text(), "-23:59:59");
    assert!(UtcOffset::east_opt(86_400).is_none());
    assert!(UtcOffset::east_opt(-86_400).is_none());
}

#[test]
fn wrapper_from_holds_both_extensions_in_order() {
    let ext = SyncWithNameStore {
        sync: Sync::new(GMonthDay::new(1, 15, None).unwrap()),
        namestore: NameStore::new("com"),
    };
    let w = Wrapper::from(ext);
    assert_eq!(w.0.sync.exp, "--01-15");
    assert_eq!(w.0.sync.xmlns, "http://www.verisign.com/epp/sync-1.0");
    assert_eq!(w.0.namestore.subproduct, "com");
    let d = RgpRestoreRequest::default();
    assert_eq!(d.restore.op, "request");
    assert_eq!(d.xmlns, "urn:ietf:params:xml:ns:rgp-1.0");
}
