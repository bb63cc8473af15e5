use vstd::prelude::*;

verus! {

/// How a TURN server authenticates the client.
#[derive(PartialEq, Eq, Structural, Debug, Clone, Copy)]
pub enum IceCredentialType {
    Unspecified,
    Password,
    Oauth,
}

impl Default for IceCredentialType {
    fn default() -> (r: Self)
        ensures
            r == IceCredentialType::Password,
    {
        IceCredentialType::Password
    }
}

/// A STUN or TURN server offered to the peer connection.
#[derive(Debug)]
pub struct IceServer {
    pub urls: Vec<String>,
    pub username: String,
    pub credential: String,
    pub credential_type: IceCredentialType,
}

impl Default for IceServer {
    fn default() -> (r: Self)
        ensures
            r.urls@.len() == 0,
            r.username@ == Seq::<char>::empty(),
            r.credential@ == Seq::<char>::empty(),
            r.credential_type == IceCredentialType::Password,
    {
        IceServer {
            urls: Vec::new(),
            username: String::new(),
            credential: String::new(),
            credential_type: IceCredentialType::Password,
        }
    }
}

/// Which video encoder to run, and with what settings.
#[derive(Debug)]
pub struct EncoderConfig {
    /// Name of the encoder, such as `libx264`.
    pub encoder: String,
    /// Pixel format the encoder is fed, such as `nv12`.
    pub pixel_format: String,
    /// MIME type of the encoded stream, such as `video/H264`.
    pub encoding: String,
    /// Encoder options as name and value pairs, each name at most once.
    pub options: EncoderOptions,
}

/// Encoder options as name and value pairs, in the order they were first
/// set; no name occurs twice.
#[derive(Debug)]
pub struct EncoderOptions {
    pairs: Vec<(String, String)>,
}

/// Settings of a sharing session.
#[derive(Debug)]
pub struct Config {
    /// Address of the signalling server.
    pub signaller_url: String,
    /// Address of the web viewer that invite links point to.
    pub viewer_url: String,
    /// Upper bound on captured frames per second.
    pub max_fps: u32,
    /// STUN and TURN servers for the peer connections.
    pub ice_servers: Vec<IceServer>,
    /// The video encoder.
    pub encoder: EncoderConfig,
}

/// The views of an option list, as name and value character sequences.
pub open spec fn options_view(options: Seq<(String, String)>) -> Seq<(Seq<char>, Seq<char>)> {
    options.map_values(|o: (String, String)| (o.0@, o.1@))
}

/// Whether no option name occurs twice in `options`.
pub open spec fn option_names_unique(options: Seq<(String, String)>) -> bool {
    forall|i: int, j: int|
        0 <= i < j < options.len() ==> (#[trigger] options[i]).0@ != (#[trigger] options[j]).0@
}

/// The options after `name` is set to `value`: the pair with that name
/// takes the new value in its place, or the pair is appended when the name
/// is new.
pub open spec fn option_set(
    options: Seq<(String, String)>,
    name: String,
    value: String,
) -> Seq<(String, String)> {
    if exists|i: int| 0 <= i < options.len() && (#[trigger] options[i]).0@ == name@ {
        let i = choose|i: int| 0 <= i < options.len() && (#[trigger] options[i]).0@ == name@;
        options.update(i, (name, value))
    } else {
        options.push((name, value))
    }
}

impl View for EncoderOptions {
    type V = Seq<(String, String)>;

    /// The pairs, in order.
    closed spec fn view(&self) -> Seq<(String, String)> {
        self.pairs@
    }
}

impl EncoderOptions {
    /// No name occurs twice.
    #[verifier::type_invariant]
    spec fn names_unique(self) -> bool {
        option_names_unique(self.pairs@)
    }

    /// No options.
    pub fn new() -> (o: Self)
        ensures
            o@ == Seq::<(String, String)>::empty(),
    {
        EncoderOptions { pairs: Vec::new() }
    }

    /// Sets option `name` to `value`, replacing the value it had.
    pub fn set(&mut self, name: String, value: String)
        ensures
            final(self)@ == option_set(old(self)@, name, value),
            option_names_unique(final(self)@),
    {
        proof {
            use_type_invariant(&*self);
        }
        let ghost old_pairs = self.pairs@;
        let n = self.pairs.len();
        let mut i: usize = 0;
        while i < n
            invariant
                n == self.pairs@.len(),
                self.pairs@ == old_pairs,
                old(self)@ == old_pairs,
                option_names_unique(old_pairs),
                i <= n,
                forall|j: int| 0 <= j < i ==> (#[trigger] old_pairs[j]).0@ != name@,
            decreases n - i,
        {
            if self.pairs[i].0 == name {
                proof {
                    assert(exists|k: int| 0 <= k < old_pairs.len() && (#[trigger] old_pairs[k]).0@
                        == name@) by {
                        assert(old_pairs[i as int].0@ == name@);
                    }
                    let c = choose|k: int| 0 <= k < old_pairs.len() && (#[trigger] old_pairs[k]).0@
                        == name@;
                    assert(old_pairs[i as int].0@ == name@);
                    assert(c == i) by {
                        if c != i as int {
                            if c < i {
                                assert(old_pairs[c].0@ != name@);
                            } else {
                                assert(old_pairs[i as int].0@ != old_pairs[c].0@);
                            }
                        }
                    }
                }
                let mut pairs = Vec::new();
                std::mem::swap(&mut pairs, &mut self.pairs);
                pairs.set(i, (name, value));
                proof {
                    assert forall|a: int, b: int| 0 <= a < b < pairs@.len() implies (#[trigger] pairs@[a]).0@
                        != (#[trigger] pairs@[b]).0@ by {
                        if a != i && b != i {
                            assert(old_pairs[a].0@ != old_pairs[b].0@);
                        } else if a == i {
                            assert(old_pairs[a].0@ != old_pairs[b].0@);
                        } else {
                            assert(old_pairs[a].0@ != old_pairs[b].0@);
                        }
                    }
                }
                self.pairs = pairs;
                assert(self@ == option_set(old_pairs, name, value));
                return;
            }
            i += 1;
        }
        let mut pairs = Vec::new();
        std::mem::swap(&mut pairs, &mut self.pairs);
        pairs.push((name, value));
        proof {
            assert forall|a: int, b: int| 0 <= a < b < pairs@.len() implies (#[trigger] pairs@[a]).0@
                != (#[trigger] pairs@[b]).0@ by {
                if b == n {
                    assert(old_pairs[a].0@ != name@);
                } else {
                    assert(old_pairs[a].0@ != old_pairs[b].0@);
                }
            }
        }
        self.pairs = pairs;
    }

    /// The pairs, in order; no name occurs twice in them.
    pub fn pairs(&self) -> (p: &Vec<(String, String)>)
        ensures
            p@ == self@,
            option_names_unique(self@),
    {
        proof {
            use_type_invariant(self);
        }
        &self.pairs
    }

    /// The number of options.
    pub fn len(&self) -> (n: usize)
        ensures
            n == self@.len(),
    {
        self.pairs.len()
    }
}

/// Every option list a configuration can hold names each option once:
/// whatever sequence of `set` calls built it.
pub proof fn law_set_keeps_names_unique(options: Seq<(String, String)>, name: String, value: String)
    requires
        option_names_unique(options),
    ensures
        option_names_unique(option_set(options, name, value)),
        option_set(options, name, value).len() == options.len() + (if exists|i: int|
            0 <= i < options.len() && (#[trigger] options[i]).0@ == name@ {
            0int
        } else {
            1int
        }),
{
    if exists|i: int| 0 <= i < options.len() && (#[trigger] options[i]).0@ == name@ {
        let c = choose|i: int| 0 <= i < options.len() && (#[trigger] options[i]).0@ == name@;
        let r = options.update(c, (name, value));
        assert forall|a: int, b: int| 0 <= a < b < r.len() implies (#[trigger] r[a]).0@
            != (#[trigger] r[b]).0@ by {
            assert(options[a].0@ != options[b].0@);
        }
    } else {
        let r = options.push((name, value));
        assert forall|a: int, b: int| 0 <= a < b < r.len() implies (#[trigger] r[a]).0@
            != (#[trigger] r[b]).0@ by {
            if b == options.len() {
                assert(r[a] == options[a]);
            } else {
                assert(options[a].0@ != options[b].0@);
            }
        }
    }
}

/// Whether `e` is the default encoder setting: H.264 through `libx264` on
/// `nv12` frames, tuned for low latency.
pub open spec fn is_default_encoder(e: EncoderConfig) -> bool {
    &&& e.encoder@ == "libx264"@
    &&& e.pixel_format@ == "nv12"@
    &&& e.encoding@ == "video/H264"@
    &&& options_view(e.options@) == seq![
        ("profile"@, "baseline"@),
        ("preset"@, "ultrafast"@),
        ("tune"@, "zerolatency"@),
    ]
}

/// Whether `servers` is the default server list: one Google STUN server.
pub open spec fn is_default_ice_servers(servers: Seq<IceServer>) -> bool {
    &&& servers.len() == 1
    &&& servers[0].urls@.len() == 1
    &&& servers[0].urls@[0]@ == "stun:stun.l.google.com:19302"@
    &&& servers[0].username@ == Seq::<char>::empty()
    &&& servers[0].credential@ == Seq::<char>::empty()
    &&& servers[0].credential_type == IceCredentialType::Password
}

fn string_of(s: &str) -> (r: String)
    ensures
        r@ == s@,
{
    s.to_owned()
}

/// The default encoder setting.
pub fn libx264() -> (e: EncoderConfig)
    ensures
        is_default_encoder(e),
        option_names_unique(e.options@),
{
    let mut options = EncoderOptions::new();
    proof {
        reveal_strlit("profile");
        reveal_strlit("preset");
        reveal_strlit("tune");
    }
    options.set(string_of("profile"), string_of("baseline"));
    let ghost o1 = options@;
    assert(o1.len() == 1);
    options.set(string_of("preset"), string_of("ultrafast"));
    proof {
        assert(o1[0].0@[2] != "preset"@[2]);
    }
    let ghost o2 = options@;
    assert(o2.len() == 2);
    options.set(string_of("tune"), string_of("zerolatency"));
    proof {
        assert(o2[0].0@.len() != "tune"@.len());
        assert(o2[1].0@.len() != "tune"@.len());
    }
    let e = EncoderConfig {
        encoder: string_of("libx264"),
        pixel_format: string_of("nv12"),
        encoding: string_of("video/H264"),
        options,
    };
    assert(options_view(e.options@) =~= seq![
        ("profile"@, "baseline"@),
        ("preset"@, "ultrafast"@),
        ("tune"@, "zerolatency"@),
    ]);
    e
}

/// The default signalling server.
pub fn default_signaller() -> (s: String)
    ensures
        s@ == "wss://ws.mirashare.app"@,
{
    string_of("wss://ws.mirashare.app")
}

/// The default web viewer.
pub fn default_viewer() -> (s: String)
    ensures
        s@ == "https://mirashare.app/"@,
{
    string_of("https://mirashare.app/")
}

/// The default frame-rate cap.
pub fn default_max_fps() -> (f: u32)
    ensures
        f == 60,
{
    60
}

/// The default ICE servers.
pub fn default_ice_servers() -> (v: Vec<IceServer>)
    ensures
        is_default_ice_servers(v@),
{
    let mut urls: Vec<String> = Vec::new();
    urls.push(string_of("stun:stun.l.google.com:19302"));
    let mut server = IceServer::default();
    server.urls = urls;
    let mut v: Vec<IceServer> = Vec::new();
    v.push(server);
    v
}

impl Default for Config {
    /// The settings of an empty configuration file: every field at its default.
    fn default() -> (c: Self)
        ensures
            c.signaller_url@ == "wss://ws.mirashare.app"@,
            c.viewer_url@ == "https://mirashare.app/"@,
            c.max_fps == 60,
            is_default_ice_servers(c.ice_servers@),
            is_default_encoder(c.encoder),
            option_names_unique(c.encoder.options@),
    {
        Config {
            signaller_url: default_signaller(),
            viewer_url: default_viewer(),
            max_fps: default_max_fps(),
            ice_servers: default_ice_servers(),
            encoder: libx264(),
        }
    }
}

} // verus!
