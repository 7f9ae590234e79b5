use base64::Engine;
use reverse_api::anon::Anon;
use reverse_api::cookies::{chunk_scripts, landing_scripts, page_metadata, CookieJar};
use reverse_api::error::GrokError;
use reverse_api::grok_models::{AnswerLine, GrokMapping, GrokTurn, Models, ScriptLinks, XsidMapping};
use reverse_api::grok_parser::{Parser, ValuesStep};
use reverse_api::handshake::{conversation_path, Handshake, HandshakeStep};
use reverse_api::utils::Utils;
use reverse_api::xsid::Signature;
use sha2::Digest;

fn b64(bytes: &[u8]) -> String {
    base64::engine::general_purpose::STANDARD.encode(bytes)
}

#[test]
fn test_between() {
    let text = "hello [world] foo";
    let result = Utils::between(text, "[", "]").unwrap();
    assert_eq!(result, "world");
}

#[test]
fn between_missing_start_is_error() {
    assert!(Utils::between("hello world", "[", "]").is_err());
}

#[test]
fn between_missing_end_is_error() {
    match Utils::between("ab", "a", "]") {
        Err(GrokError::ParseError(m)) => assert_eq!(m, "End delimiter ']' not found"),
        other => panic!("unexpected {:?}", other),
    }
    assert_eq!(Utils::between("a[bc[de]", "[", "]").unwrap(), "bc[de");
}

#[test]
fn test_generate_keys() {
    let keys = Anon::generate_keys().unwrap();
    assert_eq!(keys.private_key.len(), 32);
    assert_eq!(keys.public_key.len(), 33); // Compressed public key
}

#[test]
fn test_xor_encode() {
    let bytes = vec![1, 2, 3, 4];
    let encoded = Anon::xor_encode(&bytes);
    assert!(!encoded.is_empty());
    assert_eq!(encoded, "AQIDBA==");
}

#[test]
fn signed_challenge_verifies_against_public_key() {
    let keys = Anon::generate_keys().unwrap();
    let challenge = b"challenge bytes";
    let signed = Anon::sign_challenge(challenge, &b64(&keys.private_key)).unwrap();
    assert_eq!(signed.challenge, b64(challenge));
    let sig_bytes = base64::engine::general_purpose::STANDARD.decode(&signed.signature).unwrap();
    assert_eq!(sig_bytes.len(), 64);
    let secp = secp256k1::Secp256k1::new();
    let digest = sha2::Sha256::digest(challenge);
    let msg = secp256k1::Message::from_digest_slice(&digest).unwrap();
    let sig = secp256k1::ecdsa::Signature::from_compact(&sig_bytes).unwrap();
    let pk = secp256k1::PublicKey::from_slice(&keys.public_key).unwrap();
    assert!(secp.verify_ecdsa(&msg, &sig, &pk).is_ok());
}

#[test]
fn sign_challenge_rejects_bad_keys() {
    assert!(Anon::sign_challenge(b"x", "not base64!").is_err());
    assert!(matches!(Anon::sign_challenge(b"x", &b64(&[1u8; 5])), Err(GrokError::CryptoError(_))));
    assert!(matches!(Anon::sign_challenge(b"x", &b64(&[0u8; 32])), Err(GrokError::CryptoError(_))));
    assert!(matches!(Anon::sign_challenge(b"x", &b64(&[0xffu8; 32])), Err(GrokError::CryptoError(_))));
    assert!(matches!(Anon::sign_challenge(b"x", "not base64!"), Err(GrokError::Base64Error)));
    assert!(Anon::sign_challenge(b"x", &b64(&[1u8; 32])).is_ok());
}

#[test]
fn style_params_reads_four_offsets() {
    let token: Vec<u8> = vec![0x13, 0x25, 0x07, 0xff, 0x10];
    let (idx, c) = Signature::style_params(&token, &[0, 1, 2, 3]).unwrap();
    assert_eq!(idx, 3);
    assert_eq!(c, 5 * 7 * 15);
    assert!(Signature::style_params(&token, &[0, 1, 2]).is_none());
    assert!(Signature::style_params(&token, &[0, 1, 2, 9]).is_none());
}

#[test]
fn fold_hex_parts_strips_dots_and_dashes() {
    let parts = vec!["-1.8".to_string(), "ff".to_string(), "0.a".to_string()];
    assert_eq!(Signature::fold_hex_parts(&parts), "18ff0a");
}

#[test]
fn generate_sign_matches_assembly() {
    let token = vec![9u8, 8, 7, 6, 5, 4, 3, 2];
    let verification = b64(&token);
    let o = "abc123";
    let n: u32 = 123456;
    let prefix: u8 = 0x5a;
    let got = Signature::generate_sign("/rest/app-chat/conversations/new", "POST", &verification, o, n, prefix).unwrap();
    let msg = format!("POST!/rest/app-chat/conversations/new!{}obfiowerehiring{}", n, o);
    let digest = sha2::Sha256::digest(msg.as_bytes());
    let mut plain = vec![prefix];
    plain.extend_from_slice(&token);
    plain.extend_from_slice(&n.to_le_bytes());
    plain.extend_from_slice(&digest[..16]);
    plain.push(3);
    let first = plain[0];
    for b in plain.iter_mut().skip(1) {
        *b ^= first;
    }
    let expected = b64(&plain).trim_end_matches('=').to_string();
    assert_eq!(got, expected);
    assert!(!got.ends_with('='));
}

#[test]
fn generate_sign_rejects_bad_token() {
    assert!(Signature::generate_sign("/p", "POST", "%%%", "o", 1, 0).is_err());
}

#[test]
fn xa_splits_path_into_groups() {
    let svg = "M 10,20 C 1,2 3,4 C 5 6 C x";
    let groups = Signature::xa(svg);
    assert_eq!(groups, vec![vec![1, 2, 3, 4], vec![5, 6], vec![0]]);
}

#[test]
fn extract_challenge_between_markers() {
    let mut resp = b"junk:o86,".to_vec();
    resp.extend_from_slice(&[0xde, 0xad, 0xbe, 0xef]);
    resp.extend_from_slice(b"1:tail");
    assert_eq!(Parser::extract_challenge(&resp).unwrap(), vec![0xde, 0xad, 0xbe, 0xef]);
    assert!(Parser::extract_challenge(b"no markers here").is_none());
}

fn long_path(tag: char) -> String {
    let mut s = String::from("M");
    for _ in 0..210 {
        s.push(tag);
    }
    s
}

#[test]
fn svg_paths_and_selection() {
    let first_path = long_path('1');
    let second_path = long_path('2');
    let html = format!("x\"d\":\"{}\" y \"d\":\"Mshort\" \"d\":\"{}\"", first_path, second_path);
    let paths = Parser::svg_paths(&html);
    assert_eq!(paths, vec![first_path.clone(), second_path.clone()]);
    assert_eq!(Parser::select_svg(&html, "loading-x-anim-1").unwrap(), second_path);
    assert_eq!(Parser::select_svg(&html, "loading-x-anim-2"), Err(GrokError::ParseError("Animation index out of bounds".into())));
    assert_eq!(Parser::select_svg(&html, "anim-0"), Err(GrokError::ParseError("Invalid loading animation".into())));
    let mut cache = XsidMapping { mappings: vec![] };
    match Parser::parse_values(&html, "loading-x-anim-0", "", &cache).unwrap() {
        ValuesStep::Ready(svg, offsets) => {
            assert_eq!(svg, first_path);
            assert!(offsets.is_empty());
        },
        other => panic!("unexpected {:?}", other),
    }
    let link = match Parser::parse_values(&html, "loading-x-anim-0", "static/chunks/s.js", &cache).unwrap() {
        ValuesStep::NeedScript(_, link) => link,
        other => panic!("unexpected {:?}", other),
    };
    assert_eq!(link, "https://grok.com/_next/static/chunks/s.js");
    cache.push(link, vec![4, 5]);
    assert!(matches!(
        Parser::parse_values(&html, "loading-x-anim-0", "static/chunks/s.js", &cache).unwrap(),
        ValuesStep::Ready(_, o) if o == vec![4, 5]
    ));
    assert!(Parser::parse_values(&html, "loading-x-anim-0", "ondemand.s", &cache).is_err());
}

#[test]
fn get_anim_reads_byte_five() {
    let token = b64(&[0, 1, 2, 3, 4, 7, 9]);
    let html = format!("..\"name\":\"grok-site-verification\",\"content\":\"{}\"..", token);
    let (t, anim) = Parser::get_anim(&html, "grok-site-verification").unwrap();
    assert_eq!(t, token);
    assert_eq!(anim, "loading-x-anim-3");
    let short = format!("\"name\":\"v\",\"content\":\"{}\"", b64(&[1, 2, 3]));
    assert!(Parser::get_anim(&short, "v").is_err());
}

#[test]
fn handshake_runs_in_order() {
    let mut h = Handshake::new();
    assert!(h.record_challenge(b"", &[0u8; 32]).is_err());
    h.record_anon_user("0:{\"anonUserId\":\"user-1\"}").unwrap();
    assert_eq!(h.step, HandshakeStep::AwaitingChallenge);
    assert_eq!(h.anon_user.as_deref(), Some("user-1"));
    assert!(h.record_anon_user("again").is_err());
    let keys = Anon::generate_keys().unwrap();
    let mut resp = b":o86,".to_vec();
    resp.extend_from_slice(&[1, 2, 3]);
    resp.extend_from_slice(b"1:");
    h.record_challenge(&resp, &keys.private_key).unwrap();
    assert_eq!(h.step, HandshakeStep::AwaitingVerification);
    let signed = h.challenge.clone().unwrap();
    assert_eq!(signed.challenge, b64(&[1, 2, 3]));
    assert_eq!(signed, Anon::sign_challenge_with_key(&[1, 2, 3], &keys.private_key).unwrap());
    let token = b64(&[0, 0, 0, 0, 0, 4]);
    let path = long_path('7');
    let page = format!("\"name\":\"grok-site-verification\",\"content\":\"{}\" \"d\":\"{}\"", token, path);
    h.record_verification(&page, vec![1, 2, 3, 4]).unwrap();
    assert_eq!(h.step, HandshakeStep::Done);
    assert_eq!(h.anim.as_deref(), Some("loading-x-anim-0"));
    assert_eq!(h.svg_data.as_deref(), Some(path.as_str()));
}

#[test]
fn resumed_handshake_starts_at_challenge() {
    let h = Handshake::resume("anon".to_string());
    assert_eq!(h.step, HandshakeStep::AwaitingChallenge);
}

#[test]
fn models_map_modes() {
    let m = Models::new();
    assert_eq!(m.get_model_mode("grok-4"), "MODEL_MODE_EXPERT");
    assert_eq!(m.get_mode("grok-4-mini-thinking-tahoe"), "grok-4-mini-thinking");
    assert_eq!(m.get_model_mode("unknown"), "MODEL_MODE_AUTO");
    assert_eq!(m.get_mode("unknown"), "auto");
}

#[test]
fn script_links_and_caches() {
    assert_eq!(ScriptLinks::script_link("static/chunks/a.js", "").unwrap(), "https://grok.com/_next/static/chunks/a.js");
    assert_eq!(
        ScriptLinks::script_link("ondemand.s", "{\"ondemand.s\":\"abc\"}").unwrap(),
        "https://abs.twimg.com/responsive-web/client-web/ondemand.s.abca.js"
    );
    assert!(ScriptLinks::script_link("ondemand.s", "nothing").is_err());
    let cache = XsidMapping { mappings: vec![("l1".to_string(), vec![1, 2]), ("l2".to_string(), vec![3])] };
    assert_eq!(cache.get("l2"), Some(vec![3]));
    assert_eq!(cache.get("l3"), None);
    let scans = vec![GrokMapping { xsid_script: "x".into(), action_script: "/b.js".into(), actions: vec!["a1".into()] }];
    let hit = ScriptLinks::cached_scan(&scans, &vec!["/a.js".to_string(), "/b.js".to_string()]).unwrap();
    assert_eq!(hit.actions, vec!["a1".to_string()]);
    assert_eq!(hit.xsid_script, "x");
    assert_eq!(hit.action_script, "/b.js");
    assert!(ScriptLinks::cached_scan(&scans, &vec!["/c.js".to_string()]).is_none());
}

#[test]
fn cookie_jar_merges_set_cookie() {
    let mut jar = CookieJar::new();
    jar.merge_set_cookie("a=1; b = 2 ; flag; a=3=x");
    assert_eq!(jar.get("a"), Some("3".to_string()));
    assert_eq!(jar.get("b"), Some("2".to_string()));
    assert_eq!(jar.get("flag"), None);
    assert_eq!(jar.pairs().len(), 2);
}

#[test]
fn page_metadata_and_chunks() {
    let html = "<meta name=\"baggage\" content=\"bag=1\"><meta name=\"sentry-trace\" content=\"abc123-def\">";
    let (b, s) = page_metadata(html).unwrap();
    assert_eq!(b, "bag=1");
    assert_eq!(s, "abc123");
    assert!(page_metadata("<html></html>").is_err());
    let srcs = vec!["/_next/static/chunks/a.js".to_string(), "/other.js".to_string(), "/_next/static/chunks/b.js".to_string()];
    assert_eq!(chunk_scripts(srcs), vec!["/_next/static/chunks/a.js".to_string(), "/_next/static/chunks/b.js".to_string()]);
}

#[test]
fn answer_lines_keep_first_values() {
    let mut turn = GrokTurn::new(None);
    let line = |token: Option<&str>, message: Option<&str>, conv: Option<&str>| AnswerLine {
        token: token.map(|s| s.to_string()),
        message: message.map(|s| s.to_string()),
        conversation_id: conv.map(|s| s.to_string()),
        response_id: None,
        image_urls: None,
    };
    turn.apply_line(line(Some("Hel"), None, Some("c1")));
    turn.apply_line(line(Some("lo"), Some("Hello"), Some("c2")));
    turn.apply_line(line(None, Some("other"), None));
    assert_eq!(turn.stream_response, vec!["Hel".to_string(), "lo".to_string()]);
    assert_eq!(turn.full_response.as_deref(), Some("Hello"));
    assert_eq!(turn.conversation_id.as_deref(), Some("c1"));
    assert_eq!(GrokTurn::check_answer("x rejected by anti-bot rules"), Err(GrokError::AntiBotRejection));
    assert!(matches!(GrokTurn::check_answer("{}"), Err(GrokError::Other(_))));
    assert!(GrokTurn::check_answer("{\"modelResponse\":{}}").is_ok());
}

#[test]
fn script_offsets_follow_pattern() {
    let script = "a=x[12],16;b=x[3] ,\n 16;c=x[4],17;d=x[],16;e=x[99999999999999999999999],16;x[7],16";
    assert_eq!(Parser::script_offsets(script), vec![12, 3, 7]);
    assert!(Parser::script_offsets("nothing").is_empty());
}

#[test]
fn script_scan_finds_actions_and_signature_script() {
    let action_js = "x.createServerReference)(\"7f3a\",y);z.createServerReference)(\"bad!\");createServerReference)(\"00ff\") anonPrivateKey".to_string();
    assert_eq!(Parser::script_actions(&action_js), vec!["7f3a".to_string(), "00ff".to_string()]);
    let xsid_js = "{\"static/chunks/skip.js\"}, \"static/chunks/abc-123.js\" : a(880932)".to_string();
    assert_eq!(Parser::xsid_script(&xsid_js).unwrap(), "static/chunks/abc-123.js");
    assert!(Parser::xsid_script("\"static/chunks/a.js\"} a(880932)").is_err());
    let scripts = vec![
        ("/_next/static/chunks/1.js".to_string(), action_js),
        ("/_next/static/chunks/2.js".to_string(), "nothing here".to_string()),
        ("/_next/static/chunks/3.js".to_string(), xsid_js),
    ];
    let scan = Parser::scan_scripts(&scripts).unwrap();
    assert_eq!(scan.action_script, "/_next/static/chunks/1.js");
    assert_eq!(scan.actions, vec!["7f3a".to_string(), "00ff".to_string()]);
    assert_eq!(scan.xsid_script, "static/chunks/abc-123.js");
    assert!(Parser::scan_scripts(&vec![]).is_err());
}

#[test]
fn conversation_paths() {
    assert_eq!(conversation_path(true, &None).unwrap(), "/rest/app-chat/conversations/new");
    assert_eq!(conversation_path(false, &Some("c9".to_string())).unwrap(), "/rest/app-chat/conversations/c9/responses");
    assert_eq!(conversation_path(false, &None), Err(GrokError::MissingField("conversationId".to_string())));
}

#[test]
fn generated_keys_are_valid_and_sign() {
    let keys = Anon::generate_keys().unwrap();
    assert!(keys.public_key[0] == 2 || keys.public_key[0] == 3);
    assert!(keys.private_key.iter().any(|b| *b != 0));
    assert!(Anon::sign_challenge(b"c", &b64(&keys.private_key)).is_ok());
}

#[test]
fn parse_values_reports_index_errors() {
    let html = format!("\"d\":\"{}\"", long_path('3'));
    let cache = XsidMapping { mappings: vec![] };
    assert_eq!(
        Parser::parse_values(&html, "loading-x-anim-1", "", &cache).unwrap_err(),
        GrokError::ParseError("Animation index out of bounds".to_string())
    );
    assert_eq!(
        Parser::parse_values(&html, "loading-x-anim-x", "", &cache).unwrap_err(),
        GrokError::ParseError("Invalid loading animation".to_string())
    );
}

#[test]
fn landing_page_chunk_scripts() {
    let html = "<html><head><script src=\"/_next/static/chunks/a.js\"></script><script>inline()</script>\
                <script src=\"/other.js\"></script><script src=\"/_next/static/chunks/b.js\"></script></head></html>";
    assert_eq!(landing_scripts(html), vec!["/_next/static/chunks/a.js".to_string(), "/_next/static/chunks/b.js".to_string()]);
}

#[test]
fn verification_step_fails_without_token() {
    let mut h = Handshake::resume("anon".to_string());
    let keys = Anon::generate_keys().unwrap();
    h.record_challenge(b"no challenge", &keys.private_key).unwrap();
    assert!(h.challenge.is_none());
    assert!(matches!(h.record_verification("nothing here", vec![]), Err(GrokError::ParseError(_))));
    assert_eq!(h.step, HandshakeStep::AwaitingVerification);
}
