use epp_client::common::{Error, NoExtension};
use epp_client::contact::check::ContactCheck;
use epp_client::contact::delete::ContactDelete;
use epp_client::domain::check::DomainCheck;
use epp_client::domain::transfer::DomainTransfer;
use epp_client::domain::update::DomainUpdate;
use epp_client::extensions::namestore::NameStore;
use epp_client::extensions::rgp::request::{RgpRequestResponse, RgpRestoreRequest};
use epp_client::host::check::HostCheck;
use epp_client::host::create::HostCreate;
use epp_client::host::delete::HostDelete;
use epp_client::logout::Logout;
use epp_client::message::ack::MessageAck;
use epp_client::message::poll::MessagePoll;
use epp_client::request::Transaction;
use epp_client::response::deserialize_response;

const CLTRID: &str = "cltrid:1626454866";
const SVTRID: &str = "RO-6879-1627224678242975";
const SUCCESS_MSG: &str = "Command completed successfully";

fn response_document(code: u16, message: &str, body: &str) -> String {
    format!(
        "<?xml version=\"1.0\" encoding=\"UTF-8\" standalone=\"no\"?>\n<epp xmlns=\"urn:ietf:params:xml:ns:epp-1.0\">\n  <response>\n    <result code=\"{}\">\n      <msg>{}</msg>\n    </result>\n{}    <trID>\n      <clTRID>{}</clTRID>\n      <svTRID>{}</svTRID>\n    </trID>\n  </response>\n</epp>\n",
        code, message, body, CLTRID, SVTRID
    )
}

const TRANSFER_DATA: &str = "    <resData>\n      <domain:trnData xmlns:domain=\"urn:ietf:params:xml:ns:domain-1.0\">\n        <domain:name>eppdev-transfer.com</domain:name>\n        <domain:trStatus>pending</domain:trStatus>\n        <domain:reID>eppdev</domain:reID>\n        <domain:reDate>2021-07-23T15:31:21.0Z</domain:reDate>\n        <domain:acID>ClientY</domain:acID>\n        <domain:acDate>2021-07-28T15:31:21.0Z</domain:acDate>\n        <domain:exDate>2022-07-02T14:53:19.0Z</domain:exDate>\n      </domain:trnData>\n    </resData>\n";

#[test]
fn contact_check() {
    let xml = response_document(
        1000,
        SUCCESS_MSG,
        "    <resData>\n      <contact:chkData xmlns:contact=\"urn:ietf:params:xml:ns:contact-1.0\">\n        <contact:cd>\n          <contact:id avail=\"0\">eppdev-contact-1</contact:id>\n          <contact:reason>In use</contact:reason>\n        </contact:cd>\n        <contact:cd>\n          <contact:id avail=\"1\">eppdev-contact-2</contact:id>\n        </contact:cd>\n      </contact:chkData>\n    </resData>\n",
    );
    let object =
        <ContactCheck as Transaction<NoExtension>>::deserialize_response(xml.as_str()).unwrap();

    let results = object.res_data().unwrap();

    assert_eq!(object.result.code, 1000);
    assert_eq!(object.result.message, SUCCESS_MSG);
    assert_eq!(results.check_data.contact_list[0].contact.id, "eppdev-contact-1");
    assert_eq!(results.check_data.contact_list[0].contact.available, 0);
    assert_eq!(results.check_data.contact_list[1].contact.id, "eppdev-contact-2");
    assert_eq!(results.check_data.contact_list[1].contact.available, 1);
    assert_eq!(object.tr_ids.client_tr_id.unwrap(), CLTRID);
    assert_eq!(object.tr_ids.server_tr_id, SVTRID);
}

#[test]
fn delete_response() {
    let xml = response_document(1000, SUCCESS_MSG, "");
    let object =
        <ContactDelete as Transaction<NoExtension>>::deserialize_response(xml.as_str()).unwrap();

    assert_eq!(object.result.code, 1000);
    assert_eq!(object.result.message, SUCCESS_MSG);
    assert_eq!(object.tr_ids.client_tr_id.unwrap(), CLTRID);
    assert_eq!(object.tr_ids.server_tr_id, SVTRID);
}

#[test]
fn domain_transfer_request() {
    let xml = response_document(
        1001,
        "Command completed successfully; action pending",
        TRANSFER_DATA,
    );
    let object =
        <DomainTransfer as Transaction<NoExtension>>::deserialize_response(xml.as_str()).unwrap();

    let result = object.res_data().unwrap();

    assert_eq!(object.result.code, 1001);
    assert_eq!(object.result.message, "Command completed successfully; action pending");
    assert_eq!(result.transfer_data.name, "eppdev-transfer.com");
    assert_eq!(result.transfer_data.transfer_status, "pending");
    assert_eq!(result.transfer_data.requester_id, "eppdev");
    assert_eq!(result.transfer_data.requested_at, "2021-07-23T15:31:21.0Z");
    assert_eq!(result.transfer_data.ack_id, "ClientY");
    assert_eq!(result.transfer_data.ack_by, "2021-07-28T15:31:21.0Z");
    assert_eq!(*result.transfer_data.expiring_at.as_ref().unwrap(), "2022-07-02T14:53:19.0Z");
    assert_eq!(*object.tr_ids.client_tr_id.as_ref().unwrap(), CLTRID);
    assert_eq!(object.tr_ids.server_tr_id, SVTRID);
}

#[test]
fn domain_transfer_approve() {
    let xml = response_document(1000, SUCCESS_MSG, "");
    let object =
        <DomainTransfer as Transaction<NoExtension>>::deserialize_response(xml.as_str()).unwrap();

    assert_eq!(object.result.code, 1000);
    assert_eq!(object.result.message, SUCCESS_MSG);
    assert_eq!(object.tr_ids.client_tr_id.unwrap(), CLTRID);
    assert_eq!(object.tr_ids.server_tr_id, SVTRID);
}

#[test]
fn domain_transfer_reject() {
    let xml = response_document(1000, SUCCESS_MSG, "");
    let object =
        <DomainTransfer as Transaction<NoExtension>>::deserialize_response(xml.as_str()).unwrap();

    assert_eq!(object.result.code, 1000);
    assert_eq!(object.result.message, SUCCESS_MSG);
    assert_eq!(object.tr_ids.client_tr_id.unwrap(), CLTRID);
    assert_eq!(object.tr_ids.server_tr_id, SVTRID);
}

#[test]
fn domain_transfer_cancel() {
    let xml = response_document(1000, SUCCESS_MSG, "");
    let object =
        <DomainTransfer as Transaction<NoExtension>>::deserialize_response(xml.as_str()).unwrap();

    assert_eq!(object.result.code, 1000);
    assert_eq!(object.result.message, SUCCESS_MSG);
    assert_eq!(object.tr_ids.client_tr_id.unwrap(), CLTRID);
    assert_eq!(object.tr_ids.server_tr_id, SVTRID);
}

#[test]
fn domain_transfer_query() {
    let xml = response_document(1000, SUCCESS_MSG, TRANSFER_DATA);
    let object =
        <DomainTransfer as Transaction<NoExtension>>::deserialize_response(xml.as_str()).unwrap();

    let result = object.res_data().unwrap();

    assert_eq!(object.result.code, 1000);
    assert_eq!(object.result.message, SUCCESS_MSG);
    assert_eq!(result.transfer_data.name, "eppdev-transfer.com");
    assert_eq!(result.transfer_data.transfer_status, "pending");
    assert_eq!(result.transfer_data.requester_id, "eppdev");
    assert_eq!(result.transfer_data.requested_at, "2021-07-23T15:31:21.0Z");
    assert_eq!(result.transfer_data.ack_id, "ClientY");
    assert_eq!(result.transfer_data.ack_by, "2021-07-28T15:31:21.0Z");
    assert_eq!(*result.transfer_data.expiring_at.as_ref().unwrap(), "2022-07-02T14:53:19.0Z");
    assert_eq!(object.tr_ids.client_tr_id.unwrap(), CLTRID);
    assert_eq!(object.tr_ids.server_tr_id, SVTRID);
}

#[test]
fn namestore_response() {
    let xml = response_document(
        1000,
        SUCCESS_MSG,
        "    <resData>\n      <domain:chkData xmlns:domain=\"urn:ietf:params:xml:ns:domain-1.0\">\n        <domain:cd>\n          <domain:name avail=\"1\">example1.com</domain:name>\n        </domain:cd>\n      </domain:chkData>\n    </resData>\n    <extension>\n      <namestoreExt:namestoreExt xmlns:namestoreExt=\"http://www.verisign-grs.com/epp/namestoreExt-1.1\">\n        <namestoreExt:subProduct>com</namestoreExt:subProduct>\n      </namestoreExt:namestoreExt>\n    </extension>\n",
    );

    let object =
        <DomainCheck as Transaction<NameStore>>::deserialize_response(xml.as_str()).unwrap();

    let ext = object.extension.unwrap();

    assert_eq!(ext.data.subproduct, "com");
}

#[test]
fn request_response() {
    let xml = response_document(
        1000,
        SUCCESS_MSG,
        "    <extension>\n      <rgp:upData xmlns:rgp=\"urn:ietf:params:xml:ns:rgp-1.0\">\n        <rgp:rgpStatus s=\"pendingRestore\"/>\n      </rgp:upData>\n    </extension>\n",
    );
    let object =
        <DomainUpdate as Transaction<RgpRestoreRequest>>::deserialize_response(xml.as_str())
            .unwrap();

    let ext = object.extension.unwrap();

    assert_eq!(object.result.code, 1000);
    assert_eq!(object.result.message, SUCCESS_MSG);
    assert_eq!(ext.data.rgp_status[0].status, "pendingRestore".to_string());
    assert_eq!(object.tr_ids.server_tr_id, SVTRID);
}

#[test]
fn domain_info_request_response() {
    let xml = response_document(
        1000,
        SUCCESS_MSG,
        "    <resData>\n      <domain:infData xmlns:domain=\"urn:ietf:params:xml:ns:domain-1.0\">\n        <domain:name>eppdev-1.com</domain:name>\n        <domain:roid>125899511_DOMAIN_COM-VRSN</domain:roid>\n        <domain:status s=\"ok\"/>\n        <domain:clID>eppdev</domain:clID>\n      </domain:infData>\n    </resData>\n    <extension>\n      <rgp:infData xmlns:rgp=\"urn:ietf:params:xml:ns:rgp-1.0\">\n        <rgp:rgpStatus s=\"addPeriod\"/>\n        <rgp:rgpStatus s=\"renewPeriod\"/>\n      </rgp:infData>\n    </extension>\n",
    );
    let object = deserialize_response::<(), RgpRequestResponse>(xml.as_str()).unwrap();

    let ext = object.extension.unwrap();

    assert_eq!(ext.data.rgp_status[0].status, "addPeriod");
    assert_eq!(ext.data.rgp_status[1].status, "renewPeriod");
}

#[test]
fn check_response() {
    let xml = response_document(
        1000,
        SUCCESS_MSG,
        "    <resData>\n      <host:chkData xmlns:host=\"urn:ietf:params:xml:ns:host-1.0\">\n        <host:cd>\n          <host:name avail=\"1\">host1.eppdev-1.com</host:name>\n        </host:cd>\n        <host:cd>\n          <host:name avail=\"0\">ns1.testing.com</host:name>\n          <host:reason>In use</host:reason>\n        </host:cd>\n      </host:chkData>\n    </resData>\n",
    );
    let object =
        <HostCheck as Transaction<NoExtension>>::deserialize_response(xml.as_str()).unwrap();

    let result = object.res_data().unwrap();

    assert_eq!(object.result.code, 1000);
    assert_eq!(object.result.message, SUCCESS_MSG);
    assert_eq!(result.check_data.host_list[0].host.name, "host1.eppdev-1.com");
    assert_eq!(result.check_data.host_list[0].host.available, 1);
    assert_eq!(result.check_data.host_list[1].host.name, "ns1.testing.com");
    assert_eq!(result.check_data.host_list[1].host.available, 0);
    assert_eq!(result.check_data.host_list[1].reason.as_deref(), Some("In use"));
    assert_eq!(result.check_data.host_list[0].reason, None);
    assert_eq!(object.tr_ids.client_tr_id.unwrap(), CLTRID);
    assert_eq!(object.tr_ids.server_tr_id, SVTRID);
}

#[test]
fn create_response() {
    let xml = response_document(
        1000,
        SUCCESS_MSG,
        "    <resData>\n      <host:creData xmlns:host=\"urn:ietf:params:xml:ns:host-1.0\">\n        <host:name>host2.eppdev-1.com</host:name>\n        <host:crDate>2021-07-26T05:28:55.0Z</host:crDate>\n      </host:creData>\n    </resData>\n",
    );
    let object =
        <HostCreate as Transaction<NoExtension>>::deserialize_response(xml.as_str()).unwrap();

    let result = object.res_data().unwrap();

    assert_eq!(object.result.code, 1000);
    assert_eq!(object.result.message, SUCCESS_MSG);
    assert_eq!(result.create_data.name, "host2.eppdev-1.com");
    assert_eq!(result.create_data.created_at, "2021-07-26T05:28:55.0Z");
    assert_eq!(object.tr_ids.client_tr_id.unwrap(), CLTRID);
    assert_eq!(object.tr_ids.server_tr_id, SVTRID);
}

#[test]
fn host_delete() {
    let xml = response_document(1000, SUCCESS_MSG, "");
    let object =
        <HostDelete as Transaction<NoExtension>>::deserialize_response(xml.as_str()).unwrap();

    assert_eq!(object.result.code, 1000);
    assert_eq!(object.result.message, SUCCESS_MSG);
    assert_eq!(object.tr_ids.client_tr_id.unwrap(), CLTRID);
    assert_eq!(object.tr_ids.server_tr_id, SVTRID);
}

#[test]
fn logout() {
    let xml = response_document(1500, "Command completed successfully; ending session", "");
    let object = <Logout as Transaction<NoExtension>>::deserialize_response(xml.as_str()).unwrap();

    assert_eq!(object.result.code, 1500);
    assert_eq!(object.result.message, "Command completed successfully; ending session");
    assert_eq!(object.tr_ids.client_tr_id.unwrap(), CLTRID);
    assert_eq!(object.tr_ids.server_tr_id, SVTRID);
}

#[test]
fn ack_response() {
    let xml = response_document(1000, SUCCESS_MSG, "    <msgQ count=\"4\" id=\"12345\"/>\n");
    let object =
        <MessageAck as Transaction<NoExtension>>::deserialize_response(xml.as_str()).unwrap();

    let msg = object.message_queue().unwrap();

    assert_eq!(object.result.code, 1000);
    assert_eq!(object.result.message, SUCCESS_MSG);
    assert_eq!(msg.count, 4);
    assert_eq!(msg.id, "12345".to_string());
    assert_eq!(object.tr_ids.server_tr_id, SVTRID);
}

#[test]
fn domain_check_success() {
    let xml = "<?xml version=\"1.0\" encoding=\"UTF-8\" standalone=\"no\"?><epp xmlns=\"urn:ietf:params:xml:ns:epp-1.0\"><response><result code=\"1000\"><msg>Command completed successfully</msg></result><resData><domain:chkData xmlns:domain=\"urn:ietf:params:xml:ns:domain-1.0\"><domain:cd><domain:name avail=\"1\">eppdev.com</domain:name></domain:cd><domain:cd><domain:name avail=\"0\">eppdev.net</domain:name><domain:reason>In use</domain:reason></domain:cd></domain:chkData></resData><trID><clTRID>ABC-12345</clTRID><svTRID>54321-XYZ</svTRID></trID></response></epp>";
    let object = <DomainCheck as Transaction<NoExtension>>::deserialize_response(xml).unwrap();
    let list = &object.res_data().unwrap().check_data.domain_list;
    assert_eq!(list.len(), 2);
    assert_eq!(list[0].domain.name, "eppdev.com");
    assert_eq!(list[0].domain.available, 1);
    assert_eq!(list[1].domain.name, "eppdev.net");
    assert_eq!(list[1].domain.available, 0);
    assert_eq!(object.tr_ids.client_tr_id.as_deref(), Some("ABC-12345"));
    assert_eq!(object.tr_ids.server_tr_id, "54321-XYZ");
    assert_eq!(
        object.res_data().unwrap().check_data.xmlns,
        "urn:ietf:params:xml:ns:domain-1.0"
    );
}

#[test]
fn poll_response() {
    let xml = response_document(
        1301,
        "Command completed successfully; ack to dequeue",
        "    <msgQ count=\"5\" id=\"12345\">\n      <qDate>2021-07-23T19:12:43.0Z</qDate>\n      <msg>Transfer requested.</msg>\n    </msgQ>\n    <resData>\n      <obj:trnData xmlns:obj=\"urn:ietf:params:xml:ns:obj-1.0\">\n        <obj:name>eppdev-transfer.com</obj:name>\n        <obj:trStatus>pending</obj:trStatus>\n        <obj:reID>eppdev</obj:reID>\n        <obj:reDate>2021-07-23T15:31:21.0Z</obj:reDate>\n        <obj:acID>ClientY</obj:acID>\n        <obj:acDate>2021-07-28T15:31:21.0Z</obj:acDate>\n        <obj:exDate>2022-07-02T14:53:19.0Z</obj:exDate>\n      </obj:trnData>\n    </resData>\n",
    );
    let object =
        <MessagePoll as Transaction<NoExtension>>::deserialize_response(xml.as_str()).unwrap();
    let queue = object.message_queue().unwrap();
    assert_eq!(queue.count, 5);
    assert_eq!(queue.id, "12345");
    assert_eq!(queue.date.as_deref(), Some("2021-07-23T19:12:43.0Z"));
    assert_eq!(queue.message.as_deref(), Some("Transfer requested."));
    let data = &object.res_data().unwrap().message_data;
    assert_eq!(data.xmlns, "urn:ietf:params:xml:ns:obj-1.0");
    assert_eq!(data.name, "eppdev-transfer.com");
    assert_eq!(data.transfer_status, "pending");
    assert_eq!(data.requester_id, "eppdev");
    assert_eq!(data.requested_at, "2021-07-23T15:31:21.0Z");
    assert_eq!(data.ack_id, "ClientY");
    assert_eq!(data.ack_by, "2021-07-28T15:31:21.0Z");
    assert_eq!(data.expiring_at, "2022-07-02T14:53:19.0Z");
}

#[test]
fn server_side_error() {
    let xml = response_document(2303, "Object does not exist", "");
    match <DomainTransfer as Transaction<NoExtension>>::deserialize_response(xml.as_str()) {
        Err(Error::EppCommandError(status)) => {
            assert_eq!(status.result.code, 2303);
            assert_eq!(status.result.message, "Object does not exist");
            assert_eq!(status.tr_ids.client_tr_id.as_deref(), Some(CLTRID));
            assert_eq!(status.tr_ids.server_tr_id, SVTRID);
        },
        other => panic!("expected a command error, got {:?}", other.map(|_| ())),
    }
}

#[test]
fn message_language() {
    let xml = "<epp><response><result code=\"1000\"><msg lang=\"fr\">Commande réussie</msg></result><trID><svTRID>s</svTRID></trID></response></epp>";
    let object = <HostDelete as Transaction<NoExtension>>::deserialize_response(xml).unwrap();
    assert_eq!(object.result.lang.as_deref(), Some("fr"));
    assert_eq!(object.result.message, "Commande réussie");
    assert_eq!(object.tr_ids.client_tr_id, None);
    let plain = response_document(1000, SUCCESS_MSG, "");
    let object =
        <HostDelete as Transaction<NoExtension>>::deserialize_response(plain.as_str()).unwrap();
    assert_eq!(object.result.lang, None);
}

#[test]
fn contact_delete_with_namestore_reply() {
    let xml = response_document(
        1000,
        SUCCESS_MSG,
        "<extension><namestoreExt:namestoreExt xmlns:namestoreExt=\"http://www.verisign-grs.com/epp/namestoreExt-1.1\"><namestoreExt:subProduct>com</namestoreExt:subProduct></namestoreExt:namestoreExt></extension>",
    );
    let object =
        <ContactDelete as Transaction<NameStore>>::deserialize_response(xml.as_str()).unwrap();
    assert_eq!(object.result.code, 1000);
    let ext = object.extension.unwrap();
    assert_eq!(ext.data.subproduct, "com");
    assert_eq!(ext.data.xmlns, "http://www.verisign-grs.com/epp/namestoreExt-1.1");
}

#[test]
fn result_code_dispatch() {
    for code in [1000u16, 1001, 1300, 1500, 1999] {
        let xml = response_document(code, "ok", "");
        let r = <HostDelete as Transaction<NoExtension>>::deserialize_response(xml.as_str());
        assert_eq!(r.unwrap().result.code, code);
    }
    for code in [2000u16, 2001, 2303, 2500, 2502, 9999, 999, 0] {
        let xml = response_document(code, "refused", "    <resData><junk/></resData>\n");
        let r = <HostCreate as Transaction<NoExtension>>::deserialize_response(xml.as_str());
        match r {
            Err(Error::EppCommandError(s)) => {
                assert_eq!(s.result.code, code);
                assert_eq!(s.result.message, "refused");
            },
            _ => panic!("expected a command error for {}", code),
        }
    }
}

#[test]
fn text_that_is_no_document_is_an_xml_error() {
    for text in ["", "not xml", "<epp><response>", "<epp></ep>", "<epp a=b/>", "<epp/> trailing"] {
        let r = <HostDelete as Transaction<NoExtension>>::deserialize_response(text);
        assert!(matches!(r, Err(Error::Xml)), "{}", text);
    }
}

#[test]
fn a_document_that_is_no_reply_is_a_protocol_error() {
    let texts = [
        "<epp><greeting/></epp>".to_string(),
        "<response/>".to_string(),
        "<epp><response><trID><svTRID>s</svTRID></trID></response></epp>".to_string(),
        "<epp><response><result code=\"1000\"><msg>m</msg></result></response></epp>".to_string(),
        "<epp><response><result code=\"1000\"><msg>m</msg></result><trID><clTRID>c</clTRID></trID></response></epp>".to_string(),
        "<epp><response><result code=\"abc\"><msg>m</msg></result><trID><svTRID>s</svTRID></trID></response></epp>".to_string(),
        "<epp><response><result code=\"65536\"><msg>m</msg></result><trID><svTRID>s</svTRID></trID></response></epp>".to_string(),
        "<epp><response><result><msg>m</msg></result><trID><svTRID>s</svTRID></trID></response></epp>".to_string(),
        "<epp><response><result code=\"1000\"/><trID><svTRID>s</svTRID></trID></response></epp>".to_string(),
        response_document(1000, "m", "<msgQ id=\"1\"/>"),
        response_document(1000, "m", "<msgQ count=\"x\" id=\"1\"/>"),
        response_document(1000, "m", "<msgQ count=\"1\"/>"),
    ];
    for text in texts.iter() {
        let r = <HostDelete as Transaction<NoExtension>>::deserialize_response(text);
        assert!(matches!(r, Err(Error::Protocol)), "{}", text);
    }
}

#[test]
fn an_undeclared_extension_is_reported() {
    let xml = response_document(
        1000,
        SUCCESS_MSG,
        "<extension><namestoreExt:namestoreExt xmlns:namestoreExt=\"x\"><namestoreExt:subProduct>com</namestoreExt:subProduct></namestoreExt:namestoreExt></extension>",
    );
    let r = <HostDelete as Transaction<NoExtension>>::deserialize_response(xml.as_str());
    assert!(matches!(r, Err(Error::UnknownExtension)));
    let declared = <HostDelete as Transaction<NameStore>>::deserialize_response(xml.as_str());
    assert_eq!(declared.unwrap().extension.unwrap().data.xmlns, "x");
}

#[test]
fn a_payload_of_another_type_is_an_xml_error() {
    let wrong_data = response_document(1000, SUCCESS_MSG, "<resData><other/></resData>");
    let r = <HostCreate as Transaction<NoExtension>>::deserialize_response(wrong_data.as_str());
    assert!(matches!(r, Err(Error::Xml)));
    let wrong_extension = response_document(1000, SUCCESS_MSG, "<extension><other/></extension>");
    let r = <HostDelete as Transaction<NameStore>>::deserialize_response(wrong_extension.as_str());
    assert!(matches!(r, Err(Error::Xml)));
    let no_avail = response_document(
        1000,
        SUCCESS_MSG,
        "<resData><chkData xmlns:host=\"h\"><cd><name>a</name></cd></chkData></resData>",
    );
    let r = <HostCheck as Transaction<NoExtension>>::deserialize_response(no_avail.as_str());
    assert!(matches!(r, Err(Error::Xml)));
    let no_expiry = response_document(
        1000,
        SUCCESS_MSG,
        "<resData><trnData xmlns:obj=\"o\"><name>n</name><trStatus>s</trStatus><reID>a</reID><reDate>b</reDate><acID>c</acID><acDate>d</acDate></trnData></resData>",
    );
    let r = <MessagePoll as Transaction<NoExtension>>::deserialize_response(no_expiry.as_str());
    assert!(matches!(r, Err(Error::Xml)));
}

#[test]
fn absent_payloads_are_none() {
    let xml = response_document(1000, SUCCESS_MSG, "");
    let object =
        <HostCreate as Transaction<NameStore>>::deserialize_response(xml.as_str()).unwrap();
    assert!(object.res_data().is_none());
    assert!(object.extension.is_none());
    assert!(object.message_queue().is_none());
    let text =
        <MessageAck as Transaction<NoExtension>>::deserialize_response(
            response_document(1000, SUCCESS_MSG, "<resData>plain</resData>").as_str(),
        )
        .unwrap();
    assert_eq!(text.res_data().unwrap(), "plain");
}
