use vm_core::map_obj::{
    airfield_locations, find_pairs, next_object, object_slot, player_direction, player_location,
    scan_object, ObjScan, ObjSlot, ObjTexts,
};

const PLAYER_MOCK: &str = "[{\"type\": \"airfield\", \"color\": \"#174DFF\", \"color[]\": [23, 77, 255], \"blink\": 0, \"icon\": \"none\", \"icon_bg\": \"none\", \"sx\": 0.359126, \"sy\": 0.560636, \"ex\": 0.359155, \"ey\": 0.511808}, {\"type\": \"aircraft\", \"color\": \"#faC81E\", \"color[]\": [250, 200, 30], \"blink\": 0, \"icon\": \"Player\", \"icon_bg\": \"none\", \"x\": 0.350927, \"y\": 0.358864, \"dx\": 0.274005, \"dy\": 0.961728}]";

fn pair(a: &str, b: &str) -> Option<(String, String)> {
    Some((a.to_string(), b.to_string()))
}

#[test]
fn get_player_loc_and_dir_on_snapshot() {
    assert_eq!(player_location(PLAYER_MOCK), pair("0.350927", "0.358864"));
    assert_eq!(player_direction(PLAYER_MOCK), pair("0.274005", "0.961728"));
}

#[test]
fn get_player_loc_last_match_wins() {
    assert_eq!(
        player_location(
            "[{\"icon\":\"Player\",\"x\":1.5,\"y\":2.5},{\"icon\":\"Player\",\"x\":3.75,\"y\":-4.25}]"
        ),
        pair("3.75", "-4.25")
    );
}

#[test]
fn get_player_loc_integer_and_negative_capture() {
    assert_eq!(player_location("[{\"icon\":\"Player\",\"x\":7,\"y\":8}]"), pair("7", "8"));
    assert_eq!(player_location("[{\"icon\":\"Player\",\"x\":-1.25,\"y\":-2}]"), pair("-1.25", "-2"));
}

#[test]
fn get_player_loc_greedy_takes_last_duplicate_key() {
    assert_eq!(player_location("[{\"icon\":\"Player\",\"x\":1,\"x\":9,\"y\":8}]"), pair("9", "8"));
}

#[test]
fn get_player_loc_no_match_leaves_untouched() {
    assert_eq!(player_location("[{\"icon\":\"Bot\",\"x\":7,\"y\":8}]"), None);
    assert_eq!(player_location("[{\"icon\":\"Player\",\"x\":7}]"), None);
    assert_eq!(player_location("[{\"icon\":\"xPlayer\",\"x\":1,\"y\":2}]"), None);
    assert_eq!(player_location("[{\"icon\":\"Player\"},{\"x\":1,\"y\":2}]"), None);
    assert_eq!(
        player_location("[{  \"icon\"  :  \"Player\" , \"x\" :  1.5 , \"y\" :  -2.25 }]"),
        None
    );
    assert_eq!(player_location("[{\"icon\":\"Player\",\"x\":7.,\"y\":8}]"), None);
}

#[test]
fn get_player_loc_cjk_payload_backtracks_on_char_boundaries() {
    assert_eq!(
        player_location("[{\"名称\":\"玩家甲\",\"icon\":\"Player\",\"x\":1.5,\"y\":2.5}]"),
        pair("1.5", "2.5")
    );
    assert_eq!(
        player_location(
            "[{\"icon\":\"步兵\",\"x\":9.9,\"y\":9.9},{\"备注\":\"测试\",\"icon\":\"Player\",\"x\":-1.5,\"y\":3.25}]"
        ),
        pair("-1.5", "3.25")
    );
}

#[test]
fn get_player_loc_cjk_adjacent_to_key_does_not_match() {
    assert_eq!(player_location("[{\"图标icon玩家\":\"Player\",\"x\":1,\"y\":2}]"), None);
}

#[test]
fn get_player_dir_matches_only_player() {
    assert_eq!(
        player_direction(
            "[{\"icon\":\"Bot\",\"dx\":0.5,\"dy\":0.6},{\"icon\":\"Player\",\"dx\":-0.25,\"dy\":0.75}]"
        ),
        pair("-0.25", "0.75")
    );
}

#[test]
fn get_airfield_loc_parses_but_never_writes() {
    assert_eq!(
        airfield_locations("[{\"type\":\"airfield\",\"sx\":0.359126,\"sy\":0.560636}]"),
        vec![("0.359126".to_string(), "0.560636".to_string())]
    );
}

#[test]
fn find_pairs_collects_every_match_in_order() {
    let t = "[{\"k\":\"v\",\"a\":1,\"b\":2},{\"k\":\"w\",\"a\":3,\"b\":4},{\"k\":\"v\",\"a\":5.5,\"b\":-6}]";
    assert_eq!(
        find_pairs(t, "\"k\"", "\"v\"", "\"a\"", "\"b\""),
        vec![("1".to_string(), "2".to_string()), ("5.5".to_string(), "-6".to_string())]
    );
}

#[test]
fn find_pairs_allows_whitespace_around_colons_and_text_between_fields() {
    let t = "{ \"k\" :\t\"v\", \"z\": 0, \"a\" : 12 , \"c\":1, \"b\":\n3 , \"d\": 4 }";
    assert_eq!(find_pairs(t, "\"k\"", "\"v\"", "\"a\"", "\"b\""), vec![]);
    let t = "{ \"k\" :\t\"v\", \"z\": 0, \"a\" : 12, \"c\":1, \"b\":\n3 , \"d\": 4 }";
    assert_eq!(
        find_pairs(t, "\"k\"", "\"v\"", "\"a\"", "\"b\""),
        vec![("12".to_string(), "3".to_string())]
    );
}

#[test]
fn find_pairs_needs_a_closing_brace() {
    assert_eq!(find_pairs("{\"k\":\"v\",\"a\":1,\"b\":2", "\"k\"", "\"v\"", "\"a\"", "\"b\""), vec![]);
    assert_eq!(find_pairs("", "\"k\"", "\"v\"", "\"a\"", "\"b\""), vec![]);
}

const COMPACT_FULL: &str = "[{\"type\":\"stasel\",\"color\":\"#FF00FF\",\"color[]\":[255,0,255],\"blink\":3,\"icon\":\"View\",\"icon_bg\":\"ViewPlayer\",\"x\":0.31,\"y\":0.32},{\"type\":\"aircraft\",\"color\":\"#faC81E\",\"color[]\":[250,200,30],\"blink\":0,\"icon\":\"Player\",\"icon_bg\":\"none\",\"x\":0.350927,\"y\":0.358864,\"dx\":0.274005,\"dy\":0.961728},{\"type\":\"movsel\",\"color\":\"#00AA00\",\"color[]\":[0,170,0],\"blink\":2,\"icon\":\"Squad\",\"icon_bg\":\"selbg\",\"x\":0.61,\"y\":0.62,\"dx\":0.7,\"dy\":-0.3},{\"type\":\"aircraft\",\"color\":\"#f00C00\",\"color[]\":[240,12,0],\"blink\":1,\"icon\":\"EnemyFighter\",\"icon_bg\":\"none\",\"x\":0.421,\"y\":0.512,\"dx\":-0.5,\"dy\":0.25},{\"type\":\"ground\",\"color\":\"#174DFF\",\"color[]\":[23,77,255],\"blink\":0,\"icon\":\"bot\",\"icon_bg\":\"none\",\"x\":0.11,\"y\":0.22}]";

const MOCK_FORMAT_OBJ: &str = "[{\"type\": \"aircraft\",\"color\": \"#faC81E\",\"color[]\": [250, 200, 30],\"blink\": 0,\"icon\": \"Player\",\"icon_bg\": \"none\",\"x\": 0.350927,\"y\": 0.358864,\"dx\": 0.274005,\"dy\": 0.961728}]";

fn objects(text: &str) -> Vec<ObjTexts> {
    let mut s = text.to_string();
    let mut out = Vec::new();
    loop {
        let (obj, rest) = next_object(&s).expect("cut");
        if obj.is_empty() {
            break;
        }
        s = rest;
        if let Some(ObjScan::Object(f)) = scan_object(&obj) {
            out.push(f);
        } else {
            panic!("unreadable object {obj}");
        }
    }
    out
}

#[test]
fn compact_objects_are_read_field_by_field() {
    let objs = objects(COMPACT_FULL);
    assert_eq!(objs.len(), 5);
    let pla = &objs[1];
    assert_eq!(pla.obj_type, "aircraft");
    assert_eq!(pla.color, "#faC81E");
    assert_eq!(pla.colorg, [250, 200, 30, 255]);
    assert_eq!(pla.blink, 0);
    assert_eq!(pla.icon, "Player");
    assert_eq!(pla.icon_bg, "none");
    assert_eq!((pla.x.as_str(), pla.y.as_str()), ("0.350927", "0.358864"));
    assert!(pla.moving);
    assert_eq!((pla.dx.as_str(), pla.dy.as_str()), ("0.274005", "0.961728"));
    assert_eq!(object_slot(pla.moving, &pla.icon, &pla.icon_bg), ObjSlot::Player);

    let sta_sel = &objs[0];
    assert!(!sta_sel.moving);
    assert_eq!(sta_sel.colorg, [255, 0, 255, 255]);
    assert_eq!(sta_sel.blink, 3);
    assert_eq!(object_slot(sta_sel.moving, &sta_sel.icon, &sta_sel.icon_bg), ObjSlot::Selected);

    let mov_sel = &objs[2];
    assert_eq!(mov_sel.obj_type, "movsel");
    assert_eq!((mov_sel.dx.as_str(), mov_sel.dy.as_str()), ("0.7", "-0.3"));
    assert_eq!(object_slot(mov_sel.moving, &mov_sel.icon, &mov_sel.icon_bg), ObjSlot::Selected);

    let mov = &objs[3];
    assert_eq!(mov.icon, "EnemyFighter");
    assert_eq!(mov.colorg, [240, 12, 0, 255]);
    assert_eq!(mov.blink, 1);
    assert_eq!(object_slot(mov.moving, &mov.icon, &mov.icon_bg), ObjSlot::Moving);

    let sta = &objs[4];
    assert_eq!(sta.obj_type, "ground");
    assert_eq!(sta.colorg, [23, 77, 255, 255]);
    assert_eq!((sta.x.as_str(), sta.y.as_str()), ("0.11", "0.22"));
    assert!(!sta.moving);
    assert_eq!(object_slot(sta.moving, &sta.icon, &sta.icon_bg), ObjSlot::Static);
}

#[test]
fn spaced_format_cannot_be_read() {
    let (obj, _rest) = next_object(MOCK_FORMAT_OBJ).unwrap();
    assert!(scan_object(&obj).is_none());
}

#[test]
fn object_cutting() {
    let (o, rest) = next_object("[{a}, {b}]").unwrap();
    assert_eq!((o.as_str(), rest.as_str()), ("{a}", ", {b}]"));
    let (o, rest) = next_object("no objects").unwrap();
    assert_eq!((o.as_str(), rest.as_str()), ("", "no objects"));
    assert!(next_object("}x{").is_none());
    let (o, rest) = next_object("x}{").unwrap();
    assert_eq!((o.as_str(), rest.as_str()), ("", "{"));
    assert!(next_object("x{").is_none());
    let (o, rest) = next_object("{x").unwrap();
    assert_eq!((o.as_str(), rest.as_str()), ("", "{x"));
    assert!(matches!(scan_object("{}"), Some(ObjScan::NoFields)));
}
