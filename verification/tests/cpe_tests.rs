use kepler::{Component, CpeType, CPE23};

#[test]
fn component_can_parse_strings_correctly() {
    let table = vec![
        ("*", Component::Any),
        ("-", Component::NotApplicable),
        ("**", Component::Value("**".to_owned())),
        ("--", Component::Value("--".to_owned())),
        ("foo", Component::Value("foo".to_owned())),
    ];

    for (s, c) in table {
        let res = Component::from_str(s);
        assert_eq!(c, res);
    }
}

#[test]
fn can_match_strings_correctly() {
    let table = vec![
        (Component::Any, "literally anything", true),
        (Component::NotApplicable, "literally nothing", false),
        (Component::NotApplicable, "", false),
        (Component::NotApplicable, "-", false),
        (Component::Value("1.0.0".to_owned()), "-", false),
        (Component::Value("1.0.0".to_owned()), "1.0.0", true),
    ];

    for (c, s, m) in table {
        assert_eq!(m, c.matches(s));
    }
}

#[test]
fn types_can_parse_strings_correctly() {
    let table = vec![
        ("h", CpeType::Hardware),
        ("o", CpeType::OperatingSystem),
        ("a", CpeType::Application),
    ];

    for (s, t) in table {
        let res = CpeType::from_str(s);
        assert_eq!(t, res.unwrap());
    }
}

#[test]
fn types_can_detect_invalid_strings() {
    assert!(CpeType::from_str("troll").is_err());
}

#[test]
fn can_detect_invalid_strings() {
    assert!(CpeType::from_str("troll").is_err());
}

#[test]
fn lib_can_parse_valid_strings() {
    let valid_cpes = vec![
        "cpe:2.3:o:intel:xeon_w-11865mle_firmware:-:*:*:*:*:*:*:*",
        "cpe:2.3:h:dell:vostro_3888:-:*:*:*:*:*:*:*",
        "cpe:2.3:h:yeastar:neogate_tg400:-:*:*:*:*:*:*:*",
        "cpe:2.3:h:mitsubishielectric:rv13fr:-:*:*:*:*:*:*:*",
        "cpe:2.3:a:wayfair:git-parse:*:*:*:*:*:node.js:*:*",
        "cpe:2.3:h:siemens:ruggedcom_rsg2100:-:*:*:*:*:*:*:*",
        "cpe:2.3:o:google:android:4.2.2:*:*:*:*:*:*:*",
        "cpe:2.3:h:intel:xeon_e7-8894_v4:-:*:*:*:*:*:*:*",
        "cpe:2.3:h:dell:vostro_15_5510:-:*:*:*:*:*:*:*",
        "cpe:2.3:a:pomerium:pomerium:*:*:*:*:*:*:*:*",
        "cpe:2.3:h:intel:xeon_w-1290t:-:*:*:*:*:*:*:*",
        "cpe:2.3:h:nvidia:jetson_nano:-:*:-:*:*:*:*:*",
        "cpe:2.3:o:intel:xeon_d-1528_firmware:-:*:*:*:*:*:*:*",
        "cpe:2.3:a:synology:calendar:*:*:*:*:*:*:*:*",
        "cpe:2.3:a:zohocorp:manageengine_log360:5.2:build5211:*:*:*:*:*:*",
        "cpe:2.3:h:sonicwall:sma_210:-:*:*:*:*:*:*:*",
        "cpe:2.3:o:dlink:dap-2695_firmware:1.17.rc063:*:*:*:*:*:*:*",
        "cpe:2.3:h:nvidia:jetson_tx1:-:*:*:*:*:*:*:*",
        "cpe:2.3:a:paloaltonetworks:prisma_cloud:20.09:-:*:*:compute:*:*:*",
        "cpe:2.3:a:elementary:switchboard_bluetooth_plug:*:*:*:*:*:elementary_os:*:*",
        "cpe:2.3:h:intel:xeon_w-1290e:-:*:*:*:*:*:*:*",
        "cpe:2.3:h:intel:xeon_w-3235:-:*:*:*:*:*:*:*",
        "cpe:2.3:o:cisco:ios_xe:3.6.9e:*:*:*:*:*:*:*",
        "cpe:2.3:o:intel:xeon_w-2123_firmware:-:*:*:*:*:*:*:*",
        "cpe:2.3:a:sap:netweaver:7.10:*:*:*:*:*:*:*",
        "cpe:2.3:o:intel:lapbc510_firmware:*:*:*:*:*:*:*:*",
        "cpe:2.3:h:intel:core_i7-11700t:-:*:*:*:*:*:*:*",
        "cpe:2.3:a:care2x:hospital_information_management_system:*:*:*:*:*:*:*:*",
        "cpe:2.3:a:zohocorp:manageengine_key_manager_plus:*:*:*:*:*:*:*:*",
        "cpe:2.3:a:hitachiabb-powergrids:counterparty_settlement_and_billing:*:*:*:*:*:*:*:*",
        "cpe:2.3:h:dell:poweredge_mx740c:-:*:*:*:*:*:*:*",
        "cpe:2.3:a:zohocorp:manageengine_adselfservice_plus:5.0:5030:*:*:*:*:*:*",
        "cpe:2.3:h:asus:rs520-e9-rs8:-:*:*:*:*:*:*:*",
        "cpe:2.3:o:freebsd:freebsd:12.2:p2:*:*:*:*:*:*",
        "cpe:2.3:a:ovation:dynamic_content:1.10.1:*:*:*:*:elementor:*:*",
        "cpe:2.3:h:weidmueller:uc20-wl2000-ac:-:*:*:*:*:*:*:*",
        "cpe:2.3:o:nxp:lpc5516jev98_firmware:-:*:*:*:*:*:*:*",
        "cpe:2.3:o:huawei:s1700_firmware:v200r010c00spc300:*:*:*:*:*:*:*",
        "cpe:2.3:a:vmware:vcenter_server:6.5:update3k:*:*:*:*:*:*",
        "cpe:2.3:a:f-secure:atlant:*:*:*:*:*:*:*:*",
        "cpe:2.3:o:wago:750-8213_firmware:*:*:*:*:*:*:*:*",
        "cpe:2.3:o:qualcomm:qcn6024_firmware:-:*:*:*:*:*:*:*",
        "cpe:2.3:h:samsung:ml-6510_sv901a:-:*:*:*:*:*:*:*",
        "cpe:2.3:o:cisco:ucs-e180d-m2_firmware:*:*:*:*:*:*:*:*",
        "cpe:2.3:a:zohocorp:manageengine_servicedesk_plus:9.1:9101:*:*:*:*:*:*",
        "cpe:2.3:h:asus:rt-ax55:-:*:*:*:*:*:*:*",
        "cpe:2.3:a:open-xchange:open-xchange_appsuite:7.10.3:rev19:*:*:*:*:*:*",
        "cpe:2.3:a:thinkjs:think-helper:*:*:*:*:*:node.js:*:*",
        "cpe:2.3:o:juniper:junos:16.1:r7:*:*:*:*:*:*",
        "cpe:2.3:h:citrix:mpx\\/sdx_14060_fips:-:*:*:*:*:*:*:*",
    ];

    for s in valid_cpes {
        let res = CPE23::from_str(s);
        assert!(res.is_ok());
        assert_eq!(s, res.unwrap().to_string())
    }
}

#[test]
fn lib_can_detect_invalid_strings() {
    let invalid_cpes = vec![
        "trollololol",
        ":::",
        ":-:-;",
        "--__--,",
        "cpe:2.3:a:imagemagick:imagemagick:*:*:*:*:*:*:*",
        "cpo:2.3:a:imagemagick:imagemagick:*:*:*:*:*:*:*:*",
        "cpe:2.2:a:imagemagick:imagemagick:*:*:*:*:*:*:*:*",
    ];

    for s in invalid_cpes {
        let res = CPE23::from_str(s);

        assert!(res.is_err());
    }
}

#[test]
fn mod_can_parse_valid_strings() {
    let valid_cpes = vec![
        "cpe:2.3:o:intel:xeon_w-11865mle_firmware:-:*:*:*:*:*:*:*",
        "cpe:2.3:h:dell:vostro_3888:-:*:*:*:*:*:*:*",
        "cpe:2.3:h:yeastar:neogate_tg400:-:*:*:*:*:*:*:*",
        "cpe:2.3:h:mitsubishielectric:rv13fr:-:*:*:*:*:*:*:*",
        "cpe:2.3:a:wayfair:git-parse:*:*:*:*:*:node.js:*:*",
        "cpe:2.3:h:siemens:ruggedcom_rsg2100:-:*:*:*:*:*:*:*",
        "cpe:2.3:o:google:android:4.2.2:*:*:*:*:*:*:*",
        "cpe:2.3:h:intel:xeon_e7-8894_v4:-:*:*:*:*:*:*:*",
        "cpe:2.3:h:dell:vostro_15_5510:-:*:*:*:*:*:*:*",
        "cpe:2.3:a:pomerium:pomerium:*:*:*:*:*:*:*:*",
        "cpe:2.3:h:intel:xeon_w-1290t:-:*:*:*:*:*:*:*",
        "cpe:2.3:h:nvidia:jetson_nano:-:*:-:*:*:*:*:*",
        "cpe:2.3:o:intel:xeon_d-1528_firmware:-:*:*:*:*:*:*:*",
        "cpe:2.3:a:synology:calendar:*:*:*:*:*:*:*:*",
        "cpe:2.3:a:zohocorp:manageengine_log360:5.2:build5211:*:*:*:*:*:*",
        "cpe:2.3:h:sonicwall:sma_210:-:*:*:*:*:*:*:*",
        "cpe:2.3:o:dlink:dap-2695_firmware:1.17.rc063:*:*:*:*:*:*:*",
        "cpe:2.3:h:nvidia:jetson_tx1:-:*:*:*:*:*:*:*",
        "cpe:2.3:a:paloaltonetworks:prisma_cloud:20.09:-:*:*:compute:*:*:*",
        "cpe:2.3:a:elementary:switchboard_bluetooth_plug:*:*:*:*:*:elementary_os:*:*",
        "cpe:2.3:h:intel:xeon_w-1290e:-:*:*:*:*:*:*:*",
        "cpe:2.3:h:intel:xeon_w-3235:-:*:*:*:*:*:*:*",
        "cpe:2.3:o:cisco:ios_xe:3.6.9e:*:*:*:*:*:*:*",
        "cpe:2.3:o:intel:xeon_w-2123_firmware:-:*:*:*:*:*:*:*",
        "cpe:2.3:a:sap:netweaver:7.10:*:*:*:*:*:*:*",
        "cpe:2.3:o:intel:lapbc510_firmware:*:*:*:*:*:*:*:*",
        "cpe:2.3:h:intel:core_i7-11700t:-:*:*:*:*:*:*:*",
        "cpe:2.3:a:care2x:hospital_information_management_system:*:*:*:*:*:*:*:*",
        "cpe:2.3:a:zohocorp:manageengine_key_manager_plus:*:*:*:*:*:*:*:*",
        "cpe:2.3:a:hitachiabb-powergrids:counterparty_settlement_and_billing:*:*:*:*:*:*:*:*",
        "cpe:2.3:h:dell:poweredge_mx740c:-:*:*:*:*:*:*:*",
        "cpe:2.3:a:zohocorp:manageengine_adselfservice_plus:5.0:5030:*:*:*:*:*:*",
        "cpe:2.3:h:asus:rs520-e9-rs8:-:*:*:*:*:*:*:*",
        "cpe:2.3:o:freebsd:freebsd:12.2:p2:*:*:*:*:*:*",
        "cpe:2.3:a:ovation:dynamic_content:1.10.1:*:*:*:*:elementor:*:*",
        "cpe:2.3:h:weidmueller:uc20-wl2000-ac:-:*:*:*:*:*:*:*",
        "cpe:2.3:o:nxp:lpc5516jev98_firmware:-:*:*:*:*:*:*:*",
        "cpe:2.3:o:huawei:s1700_firmware:v200r010c00spc300:*:*:*:*:*:*:*",
        "cpe:2.3:a:vmware:vcenter_server:6.5:update3k:*:*:*:*:*:*",
        "cpe:2.3:a:f-secure:atlant:*:*:*:*:*:*:*:*",
        "cpe:2.3:o:wago:750-8213_firmware:*:*:*:*:*:*:*:*",
        "cpe:2.3:o:qualcomm:qcn6024_firmware:-:*:*:*:*:*:*:*",
        "cpe:2.3:h:samsung:ml-6510_sv901a:-:*:*:*:*:*:*:*",
        "cpe:2.3:o:cisco:ucs-e180d-m2_firmware:*:*:*:*:*:*:*:*",
        "cpe:2.3:a:zohocorp:manageengine_servicedesk_plus:9.1:9101:*:*:*:*:*:*",
        "cpe:2.3:h:asus:rt-ax55:-:*:*:*:*:*:*:*",
        "cpe:2.3:a:open-xchange:open-xchange_appsuite:7.10.3:rev19:*:*:*:*:*:*",
        "cpe:2.3:a:thinkjs:think-helper:*:*:*:*:*:node.js:*:*",
        "cpe:2.3:o:juniper:junos:16.1:r7:*:*:*:*:*:*",
        "cpe:2.3:h:citrix:mpx\\/sdx_14060_fips:-:*:*:*:*:*:*:*",
    ];

    for s in valid_cpes {
        let res = CPE23::from_str(s);
        assert!(res.is_ok());
    }
}

#[test]
fn mod_can_detect_invalid_strings() {
    let invalid_cpes = vec![
        ("trollololol", "invalid version string"),
        (":::", "invalid version string"),
        (":-:-;", "invalid version string"),
        ("--__--,", "invalid version string"),
        (
            "cpe:2.3:a:imagemagick:imagemagick:*:*:*:*:*:*:*",
            "invalid version string",
        ),
        (
            "cpo:2.3:a:imagemagick:imagemagick:*:*:*:*:*:*:*:*",
            "expected 'cpe' found 'cpo'",
        ),
        (
            "cpe:2.2:a:imagemagick:imagemagick:*:*:*:*:*:*:*:*",
            "expected cpe v2.3, found v2.2",
        ),
    ];
    for (s, err) in invalid_cpes {
        let res = CPE23::from_str(s);

        assert!(res.is_err());
        assert_eq!(err, res.err().unwrap());
    }
}

#[test]
fn uppercase_prefix_parses_and_renders_lowercase() {
    let res = CPE23::from_str("CPE:2.3:a:acme:thing:1.0:*:*:*:*:*:*:*");
    assert!(res.is_ok());
    assert_eq!(
        "cpe:2.3:a:acme:thing:1.0:*:*:*:*:*:*:*",
        res.unwrap().to_string()
    );
}

#[test]
fn type_error_messages_are_exact() {
    assert_eq!(
        "could not convert 'x' to cpe type",
        CpeType::from_str("xyz").err().unwrap()
    );
    assert_eq!("No chars for type", CpeType::from_str("").err().unwrap());
    assert_eq!(CpeType::Any, CpeType::from_str("ANY").unwrap());
}
