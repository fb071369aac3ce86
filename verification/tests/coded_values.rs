use openrtb2::text::{read_coded, read_coded_list, write_coded, write_coded_list};
use openrtb2::{
    AuctionType, BannerAdType, Coded, ContentDeliveryMethod, DecodeError, DeviceType,
    MaxExtendedAdDuration, PathStep, SaleDecision, StartDelay, TextError,
};

#[test]
fn auction_type_json() {
    assert!(read_coded::<AuctionType>("3").is_err());
    assert!(read_coded::<AuctionType>("500").is_err());

    let json = "[1,2,501]";
    let e1: Vec<AuctionType> = read_coded_list(json).unwrap();
    assert_eq!(write_coded_list(&e1).unwrap(), json);
    assert_eq!(
        e1,
        vec![
            AuctionType::FirstPrice,
            AuctionType::SecondPricePlus,
            AuctionType::ExchangeSpecific(501)
        ]
    );
}

#[test]
fn banner_ad_type_json() {
    assert!(read_coded::<BannerAdType>("-1").is_err());

    let json = "[1,2,3,4]";
    let e1: Vec<BannerAdType> = read_coded_list(json).unwrap();
    assert_eq!(
        e1,
        vec![
            BannerAdType::XhtmlTextAd,
            BannerAdType::XhtmlBannerAd,
            BannerAdType::JavaScriptAd,
            BannerAdType::Iframe,
        ]
    );
    assert_eq!(write_coded_list(&e1).unwrap(), json);
}

#[test]
fn content_delivery_method_json() {
    assert!(read_coded::<ContentDeliveryMethod>("-1").is_err());

    let json = "[1,2]";
    let e1: Vec<ContentDeliveryMethod> = read_coded_list(json).unwrap();
    assert_eq!(
        e1,
        vec![ContentDeliveryMethod::Streaming, ContentDeliveryMethod::Progressive]
    );
    assert_eq!(write_coded_list(&e1).unwrap(), json);
}

#[test]
fn device_type_json() {
    assert!(read_coded::<DeviceType>("-1").is_err());

    let json = "[1,2]";
    let e1: Vec<DeviceType> = read_coded_list(json).unwrap();
    assert_eq!(e1, vec![DeviceType::Mobile, DeviceType::PersonalComputer]);
    assert_eq!(write_coded_list(&e1).unwrap(), json);
}

#[test]
fn max_extended_ad_duration_json() {
    assert!(read_coded::<MaxExtendedAdDuration>("-2").is_err());

    let json = "[-1,0,1]";
    let e1: Vec<MaxExtendedAdDuration> = read_coded_list(json).unwrap();
    assert_eq!(write_coded_list(&e1).unwrap(), json);
    assert_eq!(
        e1,
        vec![
            MaxExtendedAdDuration::NoLimit,
            MaxExtendedAdDuration::NotAllowed,
            MaxExtendedAdDuration::Specific(1),
        ]
    );
}

#[test]
fn start_delay_json() {
    assert!(read_coded::<StartDelay>("-3").is_err());

    let json = "[10,0,-1,-2]";
    let delays: Vec<StartDelay> = read_coded_list(json).unwrap();
    assert_eq!(
        delays,
        vec![
            StartDelay::MidRoll(10),
            StartDelay::PreRoll,
            StartDelay::GenericMidRoll,
            StartDelay::GenericPostRoll
        ]
    );
    assert_eq!(write_coded_list(&delays).unwrap(), json);
}

fn invalid(value: i32, expected: &'static str) -> DecodeError {
    DecodeError::InvalidEnumeratedValue { path: vec![], value, expected }
}

#[test]
fn auction_type_decodes_fixed_codes_and_open_range() {
    assert_eq!(AuctionType::decode(1), Ok(AuctionType::FirstPrice));
    assert_eq!(AuctionType::decode(2), Ok(AuctionType::SecondPricePlus));
    assert_eq!(AuctionType::decode(501), Ok(AuctionType::ExchangeSpecific(501)));
    assert_eq!(AuctionType::decode(i32::MAX), Ok(AuctionType::ExchangeSpecific(i32::MAX)));
}

#[test]
fn auction_type_refuses_what_lies_between() {
    let expected = "1 or 2 or greater than 500";
    assert_eq!(AuctionType::decode(3), Err(invalid(3, expected)));
    assert_eq!(AuctionType::decode(500), Err(invalid(500, expected)));
    assert_eq!(AuctionType::decode(0), Err(invalid(0, expected)));
    assert_eq!(AuctionType::decode(-1), Err(invalid(-1, expected)));
    assert_eq!(AuctionType::decode(i32::MIN), Err(invalid(i32::MIN, expected)));
}

#[test]
fn auction_type_encodes_each_variant() {
    assert_eq!(AuctionType::FirstPrice.encode(), 1);
    assert_eq!(AuctionType::SecondPricePlus.encode(), 2);
    assert_eq!(AuctionType::ExchangeSpecific(501).encode(), 501);
    assert_eq!(AuctionType::ExchangeSpecific(7).encode(), 7);
}

#[test]
fn auction_type_well_formedness() {
    assert!(AuctionType::FirstPrice.is_well_formed());
    assert!(AuctionType::ExchangeSpecific(501).is_well_formed());
    assert!(!AuctionType::ExchangeSpecific(500).is_well_formed());
    assert!(!AuctionType::ExchangeSpecific(1).is_well_formed());
}

#[test]
fn auction_type_round_trips_on_legal_integers() {
    for wire in [1, 2, 501, 502, 1000, i32::MAX] {
        assert_eq!(AuctionType::decode(wire).unwrap().encode(), wire);
    }
}

#[test]
fn auction_type_inverse_on_well_formed_values() {
    for v in [
        AuctionType::FirstPrice,
        AuctionType::SecondPricePlus,
        AuctionType::ExchangeSpecific(501),
        AuctionType::ExchangeSpecific(i32::MAX),
    ] {
        assert_eq!(AuctionType::decode(v.encode()), Ok(v));
    }
}

#[test]
fn auction_type_payload_in_a_reserved_code_is_not_recovered() {
    let v = AuctionType::ExchangeSpecific(1);
    assert_eq!(AuctionType::decode(v.encode()), Ok(AuctionType::FirstPrice));
}

#[test]
fn max_extended_ad_duration_sentinels_and_magnitude() {
    assert_eq!(MaxExtendedAdDuration::decode(-1), Ok(MaxExtendedAdDuration::NoLimit));
    assert_eq!(MaxExtendedAdDuration::decode(0), Ok(MaxExtendedAdDuration::NotAllowed));
    assert_eq!(MaxExtendedAdDuration::decode(5), Ok(MaxExtendedAdDuration::Specific(5)));
    assert_eq!(
        MaxExtendedAdDuration::decode(-2),
        Err(invalid(-2, "-1 or 0 or greater than 0"))
    );
    assert_eq!(MaxExtendedAdDuration::NoLimit.encode(), -1);
    assert_eq!(MaxExtendedAdDuration::NotAllowed.encode(), 0);
    assert_eq!(MaxExtendedAdDuration::Specific(5).encode(), 5);
    assert!(MaxExtendedAdDuration::Specific(1).is_well_formed());
    assert!(!MaxExtendedAdDuration::Specific(0).is_well_formed());
    assert!(!MaxExtendedAdDuration::Specific(-1).is_well_formed());
}

#[test]
fn start_delay_sentinels_and_magnitude() {
    assert_eq!(StartDelay::decode(10), Ok(StartDelay::MidRoll(10)));
    assert_eq!(StartDelay::decode(0), Ok(StartDelay::PreRoll));
    assert_eq!(StartDelay::decode(-1), Ok(StartDelay::GenericMidRoll));
    assert_eq!(StartDelay::decode(-2), Ok(StartDelay::GenericPostRoll));
    assert_eq!(
        StartDelay::decode(-3),
        Err(invalid(-3, "0 or -1 or -2 or greater than 0"))
    );
    assert_eq!(StartDelay::MidRoll(10).encode(), 10);
    assert_eq!(StartDelay::PreRoll.encode(), 0);
    assert_eq!(StartDelay::GenericMidRoll.encode(), -1);
    assert_eq!(StartDelay::GenericPostRoll.encode(), -2);
    assert!(StartDelay::MidRoll(1).is_well_formed());
    assert!(!StartDelay::MidRoll(0).is_well_formed());
    assert!(!StartDelay::MidRoll(-2).is_well_formed());
}

#[test]
fn device_type_codes() {
    let all = [
        DeviceType::Mobile,
        DeviceType::PersonalComputer,
        DeviceType::ConnectedTv,
        DeviceType::Phone,
        DeviceType::Tablet,
        DeviceType::ConnectedDevice,
        DeviceType::SetTopBox,
    ];
    for (i, v) in all.iter().enumerate() {
        let wire = i as i32 + 1;
        assert_eq!(v.encode(), wire);
        assert_eq!(DeviceType::decode(wire), Ok(*v));
    }
    let expected = "one of: 1, 2, 3, 4, 5, 6, 7";
    assert_eq!(DeviceType::decode(0), Err(invalid(0, expected)));
    assert_eq!(DeviceType::decode(8), Err(invalid(8, expected)));
}

#[test]
fn banner_ad_type_codes() {
    let all = [
        BannerAdType::XhtmlTextAd,
        BannerAdType::XhtmlBannerAd,
        BannerAdType::JavaScriptAd,
        BannerAdType::Iframe,
    ];
    for (i, v) in all.iter().enumerate() {
        let wire = i as i32 + 1;
        assert_eq!(v.encode(), wire);
        assert_eq!(BannerAdType::decode(wire), Ok(*v));
    }
    let expected = "one of: 1, 2, 3, 4";
    assert_eq!(BannerAdType::decode(0), Err(invalid(0, expected)));
    assert_eq!(BannerAdType::decode(5), Err(invalid(5, expected)));
}

#[test]
fn content_delivery_method_codes() {
    let all = [
        ContentDeliveryMethod::Streaming,
        ContentDeliveryMethod::Progressive,
        ContentDeliveryMethod::Download,
    ];
    for (i, v) in all.iter().enumerate() {
        let wire = i as i32 + 1;
        assert_eq!(v.encode(), wire);
        assert_eq!(ContentDeliveryMethod::decode(wire), Ok(*v));
    }
    let expected = "one of: 1, 2, 3";
    assert_eq!(ContentDeliveryMethod::decode(0), Err(invalid(0, expected)));
    assert_eq!(ContentDeliveryMethod::decode(4), Err(invalid(4, expected)));
}

#[test]
fn sale_decision_codes() {
    assert_eq!(SaleDecision::decode(0), Ok(SaleDecision::Exchange));
    assert_eq!(SaleDecision::decode(1), Ok(SaleDecision::Upstream));
    assert_eq!(SaleDecision::Exchange.encode(), 0);
    assert_eq!(SaleDecision::Upstream.encode(), 1);
    assert_eq!(SaleDecision::decode(2), Err(invalid(2, "0 or 1")));
    assert_eq!(SaleDecision::decode(-1), Err(invalid(-1, "0 or 1")));
}

#[test]
fn coded_value_text_of_wrong_kind_is_a_type_mismatch() {
    let mismatch = TextError::Invalid(DecodeError::TypeMismatch { path: vec![] });
    assert_eq!(read_coded::<AuctionType>("\"1\""), Err(mismatch.clone()));
    assert_eq!(read_coded::<AuctionType>("1.5"), Err(mismatch.clone()));
    assert_eq!(read_coded::<AuctionType>("null"), Err(mismatch.clone()));
    assert_eq!(read_coded::<AuctionType>("2147483648"), Err(mismatch.clone()));
    assert_eq!(read_coded::<AuctionType>("-2147483649"), Err(mismatch.clone()));
    assert_eq!(read_coded_list::<AuctionType>("1"), Err(mismatch));
}

#[test]
fn coded_value_text_that_is_no_json() {
    assert_eq!(read_coded::<StartDelay>("one"), Err(TextError::Syntax));
    assert_eq!(read_coded::<StartDelay>(""), Err(TextError::Syntax));
    assert_eq!(read_coded_list::<StartDelay>("[1,"), Err(TextError::Syntax));
}

#[test]
fn coded_value_text_reports_the_wire_integer() {
    assert_eq!(
        read_coded::<AuctionType>("3"),
        Err(TextError::Invalid(invalid(3, "1 or 2 or greater than 500")))
    );
    assert_eq!(read_coded::<AuctionType>("2147483647"), Ok(AuctionType::ExchangeSpecific(i32::MAX)));
}

#[test]
fn coded_list_reports_the_first_fault_and_its_place() {
    assert_eq!(
        read_coded_list::<AuctionType>("[1,3,500]"),
        Err(TextError::Invalid(DecodeError::InvalidEnumeratedValue {
            path: vec![PathStep::Element(1)],
            value: 3,
            expected: "1 or 2 or greater than 500",
        }))
    );
    assert_eq!(
        read_coded_list::<AuctionType>("[1,\"2\",3]"),
        Err(TextError::Invalid(DecodeError::TypeMismatch { path: vec![PathStep::Element(1)] }))
    );
    assert_eq!(read_coded_list::<AuctionType>("[]"), Ok(vec![]));
}

#[test]
fn coded_values_are_written_as_their_wire_integers() {
    assert_eq!(write_coded(&AuctionType::ExchangeSpecific(777)).unwrap(), "777");
    assert_eq!(write_coded(&StartDelay::GenericPostRoll).unwrap(), "-2");
    assert_eq!(write_coded(&SaleDecision::Upstream).unwrap(), "1");
    assert_eq!(write_coded_list::<DeviceType>(&vec![]).unwrap(), "[]");
    assert_eq!(
        write_coded_list(&vec![StartDelay::MidRoll(10), StartDelay::PreRoll]).unwrap(),
        "[10,0]"
    );
}

#[test]
fn start_delay_and_duration_round_trip_on_legal_integers() {
    for wire in [-2, -1, 0, 1, 2, 30, i32::MAX] {
        assert_eq!(StartDelay::decode(wire).unwrap().encode(), wire);
    }
    for wire in [-1, 0, 1, 2, 30, i32::MAX] {
        assert_eq!(MaxExtendedAdDuration::decode(wire).unwrap().encode(), wire);
    }
    for v in [
        StartDelay::MidRoll(1),
        StartDelay::PreRoll,
        StartDelay::GenericMidRoll,
        StartDelay::GenericPostRoll,
    ] {
        assert_eq!(StartDelay::decode(v.encode()), Ok(v));
    }
    for v in [
        MaxExtendedAdDuration::NoLimit,
        MaxExtendedAdDuration::NotAllowed,
        MaxExtendedAdDuration::Specific(1),
    ] {
        assert_eq!(MaxExtendedAdDuration::decode(v.encode()), Ok(v));
    }
}

#[test]
fn ill_formed_payloads_are_not_recovered() {
    assert_eq!(StartDelay::decode(StartDelay::MidRoll(0).encode()), Ok(StartDelay::PreRoll));
    assert!(MaxExtendedAdDuration::decode(MaxExtendedAdDuration::Specific(-5).encode()).is_err());
}

#[test]
fn well_formedness_through_the_trait() {
    assert!(Coded::is_well_formed(&DeviceType::Phone));
    assert!(Coded::is_well_formed(&AuctionType::ExchangeSpecific(600)));
    assert!(!Coded::is_well_formed(&AuctionType::ExchangeSpecific(2)));
}
