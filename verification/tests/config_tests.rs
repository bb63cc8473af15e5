use mira_sharer::config::{
    default_ice_servers, default_max_fps, default_signaller, default_viewer, libx264, Config,
    EncoderOptions, IceCredentialType, IceServer,
};

#[test]
fn default_encoder_is_low_latency_h264() {
    let e = libx264();
    assert_eq!(e.encoder, "libx264");
    assert_eq!(e.pixel_format, "nv12");
    assert_eq!(e.encoding, "video/H264");
    let options: Vec<(&str, &str)> =
        e.options.pairs().iter().map(|(k, v)| (k.as_str(), v.as_str())).collect();
    assert_eq!(
        options,
        vec![("profile", "baseline"), ("preset", "ultrafast"), ("tune", "zerolatency")]
    );
}

#[test]
fn default_addresses_and_rate() {
    assert_eq!(default_signaller(), "wss://ws.mirashare.app");
    assert_eq!(default_viewer(), "https://mirashare.app/");
    assert_eq!(default_max_fps(), 60);
}

#[test]
fn default_ice_server_is_google_stun() {
    let servers = default_ice_servers();
    assert_eq!(servers.len(), 1);
    assert_eq!(servers[0].urls, vec!["stun:stun.l.google.com:19302".to_string()]);
    assert_eq!(servers[0].username, "");
    assert_eq!(servers[0].credential, "");
    assert_eq!(servers[0].credential_type, IceCredentialType::Password);
}

#[test]
fn empty_ice_server_uses_password_credentials() {
    let s = IceServer::default();
    assert!(s.urls.is_empty());
    assert_eq!(s.credential_type, IceCredentialType::Password);
    assert_eq!(IceCredentialType::default(), IceCredentialType::Password);
}

#[test]
fn default_config_takes_every_default() {
    let c = Config::default();
    assert_eq!(c.signaller_url, "wss://ws.mirashare.app");
    assert_eq!(c.viewer_url, "https://mirashare.app/");
    assert_eq!(c.max_fps, 60);
    assert_eq!(c.ice_servers.len(), 1);
    assert_eq!(c.encoder.encoder, "libx264");
}

#[test]
fn default_option_names_are_distinct() {
    let e = libx264();
    let mut names: Vec<&str> = e.options.pairs().iter().map(|(k, _)| k.as_str()).collect();
    names.sort();
    names.dedup();
    assert_eq!(names.len(), e.options.len());
}

#[test]
fn setting_an_option_again_replaces_its_value() {
    let mut o = EncoderOptions::new();
    o.set("crf".to_string(), "23".to_string());
    o.set("preset".to_string(), "fast".to_string());
    o.set("crf".to_string(), "18".to_string());
    let pairs: Vec<(&str, &str)> = o.pairs().iter().map(|(k, v)| (k.as_str(), v.as_str())).collect();
    assert_eq!(pairs, vec![("crf", "18"), ("preset", "fast")]);
    assert_eq!(o.len(), 2);
}
