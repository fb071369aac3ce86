use openrtb2::record::{from_json, to_json};
use openrtb2::text::{parse, print, read_record, write_record};
use openrtb2::{
    AuctionType, BidRequest, Content, Data, DecodeError, DistributionChannel, Json, Member,
    PathStep, Pmp, Record, SaleDecision, Site, Source, TextError,
};

#[test]
fn bid_request_json() {
    assert!(read_record::<BidRequest>("{}").is_err());

    let json = r#"{"id":"","imp":[]}"#;
    let o1 = BidRequest::default();
    assert_eq!(write_record(&o1).unwrap(), json);
    assert_eq!(o1, read_record::<BidRequest>(json).unwrap());
}

#[test]
fn content_json() {
    let json = "{}";
    let o1 = Content::default();
    assert_eq!(write_record(&o1).unwrap(), json);
    assert_eq!(o1, read_record::<Content>(json).unwrap());
}

#[test]
fn data_json() {
    let json = "{}";
    let o1 = Data::default();
    assert_eq!(write_record(&o1).unwrap(), json);
    assert_eq!(o1, read_record::<Data>(json).unwrap());
}

#[test]
fn pmp_json() {
    let json = "{}";
    let o1 = Pmp::default();
    assert_eq!(write_record(&o1).unwrap(), json);
    assert_eq!(o1, read_record::<Pmp>(json).unwrap());
}

#[test]
fn site_json() {
    let json = "{}";
    let o1 = Site::default();
    assert_eq!(write_record(&o1).unwrap(), json);
    assert_eq!(o1, read_record::<Site>(json).unwrap());
}

#[test]
fn source_json() {
    let json = "{}";
    let o1 = Source::default();
    assert_eq!(write_record(&o1).unwrap(), json);
    assert_eq!(o1, read_record::<Source>(json).unwrap());
}

fn invalid(e: DecodeError) -> TextError {
    TextError::Invalid(e)
}

fn member(name: &str, value: Json) -> Member {
    Member { name: name.to_string(), value }
}

#[test]
fn bid_request_without_id_misses_a_required_field() {
    assert_eq!(
        read_record::<BidRequest>("{}"),
        Err(invalid(DecodeError::MissingRequiredField { path: vec![PathStep::Member("id")] }))
    );
    assert_eq!(
        read_record::<BidRequest>(r#"{"imp":[]}"#),
        Err(invalid(DecodeError::MissingRequiredField { path: vec![PathStep::Member("id")] }))
    );
}

#[test]
fn bid_request_without_imp_misses_its_sequence() {
    assert_eq!(
        read_record::<BidRequest>(r#"{"id":"1"}"#),
        Err(invalid(DecodeError::EmptyRequiredSequence { path: vec![PathStep::Member("imp")] }))
    );
}

#[test]
fn bid_request_null_id_is_a_type_mismatch() {
    assert_eq!(
        read_record::<BidRequest>(r#"{"id":null,"imp":[]}"#),
        Err(invalid(DecodeError::TypeMismatch { path: vec![PathStep::Member("id")] }))
    );
    assert_eq!(
        read_record::<BidRequest>(r#"{"id":"1","imp":null}"#),
        Err(invalid(DecodeError::TypeMismatch { path: vec![PathStep::Member("imp")] }))
    );
}

#[test]
fn bid_request_rule_of_one_impression() {
    let empty = read_record::<BidRequest>(r#"{"id":"1","imp":[]}"#).unwrap();
    assert_eq!(
        empty.require_impressions(),
        Err(DecodeError::EmptyRequiredSequence { path: vec![PathStep::Member("imp")] })
    );
    let one = read_record::<BidRequest>(r#"{"id":"1","imp":[{"id":"a"}]}"#).unwrap();
    assert_eq!(one.require_impressions(), Ok(()));
    assert_eq!(one.imp, vec![vec![member("id", Json::Text("a".to_string()))]]);
}

#[test]
fn bid_request_document_that_is_no_object() {
    assert_eq!(
        read_record::<BidRequest>("[]"),
        Err(invalid(DecodeError::TypeMismatch { path: vec![] }))
    );
    assert_eq!(read_record::<BidRequest>("{"), Err(TextError::Syntax));
}

#[test]
fn bid_request_with_every_kind_of_member() {
    let json = concat_all(&[
        r#"{"id":"80ce30c53c16e6ede735f123ef6e32361bfc7b22","imp":[{"id":"1","bidfloor":0.03}],"#,
        r#""site":{"id":"102855","cat":["IAB3-1"],"domain":"www.foobar.com","#,
        r#""page":"http://www.foobar.com/1234.html","privacypolicy":1,"#,
        r#""publisher":{"id":"8953"},"content":{"episode":4,"livestream":0,"#,
        r#""data":[{"id":"d1","segment":[{"id":"s"}]}]},"ext":[1,2]},"#,
        r#""device":{"ua":"Mozilla"},"user":{"id":"55816b39711f9b5acf3b90e313ed29e51665623f"},"#,
        r#""test":1,"at":501,"tmax":120,"wseat":["a","b"],"allimps":0,"cur":["USD"],"#,
        r#""source":{"fd":1,"tid":"t","pchain":"p"},"regs":{"coppa":0},"ext":{"x":null}}"#,
    ]);
    let request = read_record::<BidRequest>(&json).unwrap();
    assert_eq!(request.id, "80ce30c53c16e6ede735f123ef6e32361bfc7b22");
    assert_eq!(request.imp.len(), 1);
    assert_eq!(request.imp[0][1], member("bidfloor", Json::Decimal("0.03".to_string())));
    assert_eq!(request.test, Some(true));
    assert_eq!(request.allimps, Some(false));
    assert_eq!(request.at, Some(AuctionType::ExchangeSpecific(501)));
    assert_eq!(request.tmax, Some(120));
    assert_eq!(request.wseat, Some(vec!["a".to_string(), "b".to_string()]));
    assert_eq!(request.bseat, None);
    assert_eq!(request.cur, Some(vec!["USD".to_string()]));
    assert_eq!(
        request.source,
        Some(Source {
            fd: Some(SaleDecision::Upstream),
            tid: Some("t".to_string()),
            pchain: Some("p".to_string()),
            ext: None,
        })
    );
    assert_eq!(request.ext, Some(vec![member("x", Json::Null)]));
    match &request.channel {
        Some(DistributionChannel::Site(site)) => {
            assert_eq!(site.id, Some("102855".to_string()));
            assert_eq!(site.privacypolicy, Some(true));
            assert_eq!(site.mobile, None);
            assert_eq!(site.ext, Some(Json::Array(vec![Json::Integer(1), Json::Integer(2)])));
            let content = site.content.as_ref().unwrap();
            assert_eq!(content.episode, Some(4));
            assert_eq!(content.livestream, Some(false));
            let data = content.data.as_ref().unwrap();
            assert_eq!(data.len(), 1);
            assert_eq!(data[0].id, Some("d1".to_string()));
        }
        other => panic!("no site: {:?}", other),
    }
    // The members come out in the order of the declaration, not in that of the input.
    let expected = concat_all(&[
        r#"{"id":"80ce30c53c16e6ede735f123ef6e32361bfc7b22","imp":[{"id":"1","bidfloor":0.03}],"#,
        r#""site":{"id":"102855","domain":"www.foobar.com","cat":["IAB3-1"],"#,
        r#""page":"http://www.foobar.com/1234.html","privacypolicy":1,"#,
        r#""publisher":{"id":"8953"},"content":{"episode":4,"livestream":0,"#,
        r#""data":[{"id":"d1","segment":[{"id":"s"}]}]},"ext":[1,2]},"#,
        r#""device":{"ua":"Mozilla"},"user":{"id":"55816b39711f9b5acf3b90e313ed29e51665623f"},"#,
        r#""test":1,"at":501,"tmax":120,"wseat":["a","b"],"allimps":0,"cur":["USD"],"#,
        r#""source":{"fd":1,"tid":"t","pchain":"p"},"regs":{"coppa":0},"ext":{"x":null}}"#,
    ]);
    assert_eq!(write_record(&request).unwrap(), expected);
    assert_eq!(read_record::<BidRequest>(&expected).unwrap(), request);
}

fn concat_all(parts: &[&str]) -> String {
    parts.concat()
}

#[test]
fn bid_request_channel_is_the_site_or_the_app() {
    let with_app = read_record::<BidRequest>(r#"{"id":"1","imp":[],"app":{"bundle":"b"}}"#).unwrap();
    assert_eq!(
        with_app.channel,
        Some(DistributionChannel::App(vec![member("bundle", Json::Text("b".to_string()))]))
    );
    assert_eq!(write_record(&with_app).unwrap(), r#"{"id":"1","imp":[],"app":{"bundle":"b"}}"#);

    let with_both =
        read_record::<BidRequest>(r#"{"id":"1","imp":[],"app":{},"site":{"name":"n"}}"#).unwrap();
    match with_both.channel {
        Some(DistributionChannel::Site(site)) => assert_eq!(site.name, Some("n".to_string())),
        other => panic!("no site: {:?}", other),
    }

    let with_none = read_record::<BidRequest>(r#"{"id":"1","imp":[]}"#).unwrap();
    assert_eq!(with_none.channel, None);
}

#[test]
fn invalid_coded_member_fails_the_document_with_its_path() {
    assert_eq!(
        read_record::<BidRequest>(r#"{"id":"1","imp":[],"at":3}"#),
        Err(invalid(DecodeError::InvalidEnumeratedValue {
            path: vec![PathStep::Member("at")],
            value: 3,
            expected: "1 or 2 or greater than 500",
        }))
    );
    assert_eq!(
        read_record::<BidRequest>(r#"{"id":"1","imp":[],"source":{"fd":2}}"#),
        Err(invalid(DecodeError::InvalidEnumeratedValue {
            path: vec![PathStep::Member("source"), PathStep::Member("fd")],
            value: 2,
            expected: "0 or 1",
        }))
    );
    assert_eq!(
        read_record::<BidRequest>(r#"{"id":"1","imp":[],"at":"1"}"#),
        Err(invalid(DecodeError::TypeMismatch { path: vec![PathStep::Member("at")] }))
    );
}

#[test]
fn faults_deep_inside_are_reported_with_their_path() {
    assert_eq!(
        read_record::<Site>(r#"{"content":{"data":[{},{"name":7}]}}"#),
        Err(invalid(DecodeError::TypeMismatch {
            path: vec![
                PathStep::Member("content"),
                PathStep::Member("data"),
                PathStep::Element(1),
                PathStep::Member("name"),
            ],
        }))
    );
    assert_eq!(
        read_record::<Site>(r#"{"cat":["IAB1",2]}"#),
        Err(invalid(DecodeError::TypeMismatch {
            path: vec![PathStep::Member("cat"), PathStep::Element(1)],
        }))
    );
    assert_eq!(
        read_record::<Pmp>(r#"{"deals":[{"id":"d"},[]]}"#),
        Err(invalid(DecodeError::TypeMismatch {
            path: vec![PathStep::Member("deals"), PathStep::Element(1)],
        }))
    );
}

#[test]
fn the_first_fault_in_the_order_of_declaration_is_reported() {
    assert_eq!(
        read_record::<Source>(r#"{"pchain":1,"tid":2,"fd":"x"}"#),
        Err(invalid(DecodeError::TypeMismatch { path: vec![PathStep::Member("fd")] }))
    );
    assert_eq!(
        read_record::<Source>(r#"{"pchain":1,"tid":2}"#),
        Err(invalid(DecodeError::TypeMismatch { path: vec![PathStep::Member("tid")] }))
    );
}

#[test]
fn flags_are_zero_or_one() {
    let pmp = read_record::<Pmp>(r#"{"private_auction":1}"#).unwrap();
    assert_eq!(pmp.private_auction, Some(true));
    assert_eq!(write_record(&pmp).unwrap(), r#"{"private_auction":1}"#);
    let pmp = read_record::<Pmp>(r#"{"private_auction":0}"#).unwrap();
    assert_eq!(pmp.private_auction, Some(false));
    assert_eq!(write_record(&pmp).unwrap(), r#"{"private_auction":0}"#);
    assert_eq!(
        read_record::<Pmp>(r#"{"private_auction":2}"#),
        Err(invalid(DecodeError::InvalidEnumeratedValue {
            path: vec![PathStep::Member("private_auction")],
            value: 2,
            expected: "0 or 1",
        }))
    );
    assert_eq!(
        read_record::<Pmp>(r#"{"private_auction":true}"#),
        Err(invalid(DecodeError::TypeMismatch { path: vec![PathStep::Member("private_auction")] }))
    );
}

#[test]
fn unknown_members_are_discarded() {
    let plain = read_record::<Source>(r#"{"fd":0,"tid":"t"}"#).unwrap();
    let noisy = read_record::<Source>(r#"{"zzz":[1],"fd":0,"new":{"a":1},"tid":"t","x":null}"#)
        .unwrap();
    assert_eq!(plain, noisy);
    assert_eq!(write_record(&noisy).unwrap(), r#"{"fd":0,"tid":"t"}"#);

    let request = read_record::<BidRequest>(r#"{"unknown":1,"id":"","imp":[],"later":"x"}"#).unwrap();
    assert_eq!(request, BidRequest::default());
}

#[test]
fn null_members_are_absent_members() {
    let source = read_record::<Source>(r#"{"fd":null,"tid":null,"ext":null}"#).unwrap();
    assert_eq!(source, Source::default());
    assert_eq!(write_record(&source).unwrap(), "{}");
}

#[test]
fn absent_members_are_left_out_and_the_order_is_that_of_the_declaration() {
    let source = Source {
        fd: None,
        tid: Some("t".to_string()),
        pchain: None,
        ext: Some(vec![]),
    };
    assert_eq!(write_record(&source).unwrap(), r#"{"tid":"t","ext":{}}"#);
    let source = Source {
        fd: Some(SaleDecision::Exchange),
        tid: None,
        pchain: Some("p".to_string()),
        ext: None,
    };
    assert_eq!(write_record(&source).unwrap(), r#"{"fd":0,"pchain":"p"}"#);
}

#[test]
fn the_referrer_of_a_site_is_its_member_ref() {
    let site = read_record::<Site>(r#"{"ref":"http://referringsite.com"}"#).unwrap();
    assert_eq!(site.ref_, Some("http://referringsite.com".to_string()));
    assert_eq!(write_record(&site).unwrap(), r#"{"ref":"http://referringsite.com"}"#);
}

#[test]
fn records_are_read_from_and_written_to_json_values() {
    let j = Json::Object(vec![
        member("name", Json::Text("n".to_string())),
        member("more", Json::Bool(true)),
        member("id", Json::Text("i".to_string())),
    ]);
    let data: Data = from_json(&j).unwrap();
    assert_eq!(
        data,
        Data { id: Some("i".to_string()), name: Some("n".to_string()), segment: None, ext: None }
    );
    assert_eq!(
        to_json(&data),
        Json::Object(vec![
            member("id", Json::Text("i".to_string())),
            member("name", Json::Text("n".to_string())),
        ])
    );
    assert_eq!(data.encode(), vec![
        member("id", Json::Text("i".to_string())),
        member("name", Json::Text("n".to_string())),
    ]);
    assert_eq!(
        from_json::<Data>(&Json::Array(vec![])),
        Err(DecodeError::TypeMismatch { path: vec![] })
    );
}

#[test]
fn the_first_of_two_members_with_one_name_counts() {
    let members = vec![
        member("tid", Json::Text("first".to_string())),
        member("tid", Json::Text("second".to_string())),
    ];
    assert_eq!(Source::decode(&members).unwrap().tid, Some("first".to_string()));
}

#[test]
fn integers_outside_the_range_of_the_member_are_a_type_mismatch() {
    assert_eq!(read_record::<Content>(r#"{"len":2147483647}"#).unwrap().len, Some(i32::MAX));
    assert_eq!(read_record::<Content>(r#"{"len":-2147483648}"#).unwrap().len, Some(i32::MIN));
    assert_eq!(
        read_record::<Content>(r#"{"len":2147483648}"#),
        Err(invalid(DecodeError::TypeMismatch { path: vec![PathStep::Member("len")] }))
    );
    assert_eq!(
        read_record::<Content>(r#"{"len":1.0}"#),
        Err(invalid(DecodeError::TypeMismatch { path: vec![PathStep::Member("len")] }))
    );
}

#[test]
fn json_text_round_trip() {
    let text = r#"{"a":[1,-2,3.5,"s\n",true,false,null,{"b":{}}],"c":18446744073709551615}"#;
    let j = parse(text).unwrap();
    assert_eq!(
        j,
        Json::Object(vec![
            member(
                "a",
                Json::Array(vec![
                    Json::Integer(1),
                    Json::Integer(-2),
                    Json::Decimal("3.5".to_string()),
                    Json::Text("s\n".to_string()),
                    Json::Bool(true),
                    Json::Bool(false),
                    Json::Null,
                    Json::Object(vec![member("b", Json::Object(vec![]))]),
                ])
            ),
            member("c", Json::Decimal("18446744073709551615".to_string())),
        ])
    );
    assert_eq!(print(&j).unwrap(), text);
    assert_eq!(parse("{\"a\":1,}"), None);
    assert_eq!(parse(" [ 1 , 2 ] "), Some(Json::Array(vec![Json::Integer(1), Json::Integer(2)])));
}

#[test]
fn json_clone_holds_the_same() {
    let j = parse(r#"{"a":[1,{"b":"c"}],"d":2.5}"#).unwrap();
    assert_eq!(j.clone(), j);
}

#[test]
fn what_is_read_is_valid_and_is_read_back_from_what_it_is_written_as() {
    let text = r#"{"id":"r","imp":[{"id":"1"}],"site":{"content":{"data":[{"id":"d"}]}},"at":2}"#;
    let request = read_record::<BidRequest>(text).unwrap();
    assert!(request.is_valid());
    assert_eq!(BidRequest::decode(&request.encode()), Ok(request.clone()));
    assert_eq!(from_json::<BidRequest>(&to_json(&request)), Ok(request));
}

#[test]
fn a_record_with_an_ill_formed_coded_value_is_not_valid() {
    let mut request = BidRequest::default();
    assert!(request.is_valid());
    request.at = Some(AuctionType::ExchangeSpecific(3));
    assert!(!request.is_valid());
    assert_eq!(write_record(&request).unwrap(), r#"{"id":"","imp":[],"at":3}"#);
    assert_eq!(
        BidRequest::decode(&request.encode()),
        Err(DecodeError::InvalidEnumeratedValue {
            path: vec![PathStep::Member("at")],
            value: 3,
            expected: "1 or 2 or greater than 500",
        })
    );
    request.at = Some(AuctionType::ExchangeSpecific(501));
    assert!(request.is_valid());
}

#[test]
fn validity_reaches_into_the_records_inside() {
    let mut site = Site::default();
    assert!(site.is_valid());
    site.ext = Some(Json::Null);
    assert!(!site.is_valid());
    site.ext = Some(Json::Bool(false));
    assert!(site.is_valid());

    let mut request = BidRequest::default();
    request.channel = Some(DistributionChannel::Site(site.clone()));
    assert!(request.is_valid());
    site.ext = Some(Json::Null);
    request.channel = Some(DistributionChannel::Site(site));
    assert!(!request.is_valid());
    request.channel = Some(DistributionChannel::App(vec![]));
    assert!(request.is_valid());

    let mut content = Content::default();
    content.data = Some(vec![Data::default(), Data::default()]);
    assert!(content.is_valid());
}
