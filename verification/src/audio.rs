//! The recorder's configuration: which input it uses and at what sample
//! rate and channel count its samples arrive.

use vstd::prelude::*;
use vstd::string::*;

verus! {

/// The sample rate (Hz) that speech recognition works at, and at which
/// `parec` is asked to record.
pub const TARGET_SAMPLE_RATE: u32 = 16000;

/// An input device's default stream configuration.
#[derive(Debug, Clone, Copy, PartialEq, Eq, Structural)]
pub struct InputConfig {
    pub sample_rate: u32,
    pub channels: u16,
}

/// Why no recorder could be set up.
#[derive(Debug, Clone, Copy, PartialEq, Eq, Structural)]
pub enum AudioError {
    /// Neither the default input device nor any other has a usable configuration.
    NoInputDevice,
}

impl AudioError {
    /// The message reported to the user.
    pub fn message(&self) -> (r: &'static str)
        ensures
            r@ == "No usable audio input device found. Check your microphone is connected.\nList devices with: arecord -l"@,
    {
        "No usable audio input device found. Check your microphone is connected.\nList devices with: arecord -l"
    }
}

/// Which input device to record from.
#[derive(Debug, Clone, Copy, PartialEq, Eq, Structural)]
pub enum InputChoice {
    /// The system's default input device.
    Default,
    /// The input device at this position in enumeration order.
    Device(usize),
}

/// Whether `i` is the first position in `configs` that holds a configuration.
pub open spec fn is_first_present(configs: Seq<Option<InputConfig>>, i: int) -> bool {
    &&& 0 <= i < configs.len()
    &&& configs[i] is Some
    &&& forall|j: int| 0 <= j < i ==> #[trigger] configs[j] is None
}

/// Picks the input device: the default one when it has a usable
/// configuration, otherwise the first input device, in enumeration order,
/// that has one; none when no device has one.
pub fn choose_input(default_config: Option<InputConfig>, others: &Vec<Option<InputConfig>>) -> (r: Option<InputChoice>)
    ensures
        default_config is Some ==> r == Some(InputChoice::Default),
        default_config is None ==> match r {
            Some(InputChoice::Default) => false,
            Some(InputChoice::Device(i)) => is_first_present(others@, i as int),
            None => forall|j: int| 0 <= j < others@.len() ==> #[trigger] others@[j] is None,
        },
{
    if default_config.is_some() {
        return Some(InputChoice::Default);
    }
    let mut i: usize = 0;
    while i < others.len()
        invariant
            default_config is None,
            i <= others@.len(),
            forall|j: int| 0 <= j < i ==> #[trigger] others@[j] is None,
        decreases others@.len() - i,
    {
        if others[i].is_some() {
            return Some(InputChoice::Device(i));
        }
        i = i + 1;
    }
    None
}

/// Records speech: at what rate and channel count samples arrive, and
/// from which PipeWire/PulseAudio source, if one was named.
pub struct AudioRecorder {
    sample_rate: u32,
    channels: u16,
    device: Option<String>,
}

impl AudioRecorder {
    /// The sample rate samples arrive at.
    pub closed spec fn spec_sample_rate(&self) -> u32 {
        self.sample_rate
    }

    /// The number of interleaved channels samples arrive in.
    pub closed spec fn spec_channels(&self) -> u16 {
        self.channels
    }

    /// The named source recorded from through `parec`, if any.
    pub closed spec fn spec_device(&self) -> Option<Seq<char>> {
        match self.device {
            Some(d) => Some(d@),
            None => None,
        }
    }

    /// Sets up a recorder. A named source is recorded through `parec` at
    /// 16 kHz mono. Without one, the system input is used with `input`, its
    /// configuration as found by `choose_input`; when there is no
    /// such configuration no recorder can be set up.
    pub fn new(device: Option<String>, input: Option<InputConfig>) -> (r: Result<AudioRecorder, AudioError>)
        ensures
            device is Some ==> (r matches Ok(rec) && rec.spec_sample_rate() == TARGET_SAMPLE_RATE
                && rec.spec_channels() == 1 && rec.spec_device() == Some(device->0@)),
            device is None && input is Some ==> (r matches Ok(rec)
                && rec.spec_sample_rate() == input->0.sample_rate
                && rec.spec_channels() == input->0.channels && rec.spec_device() is None),
            device is None && input is None ==> r == Err::<AudioRecorder, AudioError>(AudioError::NoInputDevice),
    {
        match device {
            Some(d) => Ok(AudioRecorder { sample_rate: TARGET_SAMPLE_RATE, channels: 1, device: Some(d) }),
            None => match input {
                Some(c) => Ok(AudioRecorder { sample_rate: c.sample_rate, channels: c.channels, device: None }),
                None => Err(AudioError::NoInputDevice),
            },
        }
    }

    /// The sample rate samples arrive at.
    pub fn sample_rate(&self) -> (r: u32)
        ensures
            r == self.spec_sample_rate(),
    {
        self.sample_rate
    }

    /// The number of interleaved channels samples arrive in.
    pub fn channels(&self) -> (r: u16)
        ensures
            r == self.spec_channels(),
    {
        self.channels
    }

    /// The named source recorded from through `parec`, if any.
    pub fn device(&self) -> (r: Option<&str>)
        ensures
            match r {
                Some(d) => self.spec_device() == Some(d@),
                None => self.spec_device() is None,
            },
    {
        match &self.device {
            Some(d) => Some(d.as_str()),
            None => None,
        }
    }
}

/// The 32-bit word that four bytes encode, least significant byte first.
pub open spec fn le_word(b0: u8, b1: u8, b2: u8, b3: u8) -> u32 {
    (b0 + 256 * b1 + 65536 * b2 + 16777216 * b3) as u32
}

/// The little-endian 32-bit words of a byte stream, one per complete group
/// of four bytes, in order.
pub open spec fn words(s: Seq<u8>) -> Seq<u32> {
    Seq::new(s.len() / 4, |i: int| le_word(s[4 * i], s[4 * i + 1], s[4 * i + 2], s[4 * i + 3]))
}

/// The bytes after the last complete word of a stream.
pub open spec fn leftover(s: Seq<u8>) -> Seq<u8> {
    s.subrange(4 * (s.len() / 4) as int, s.len() as int)
}

/// Splits the byte stream `parec` writes into its 32-bit little-endian
/// samples, whatever sizes the reads come in: bytes of a sample cut off by
/// the end of a read are kept for the next one.
pub struct SampleFramer {
    pending: Vec<u8>,
}

impl SampleFramer {
    /// The bytes read but not yet framed.
    pub closed spec fn spec_pending(&self) -> Seq<u8> {
        self.pending@
    }

    /// A framer that has read nothing.
    pub fn new() -> (r: SampleFramer)
        ensures
            r.spec_pending() == Seq::<u8>::empty(),
    {
        SampleFramer { pending: Vec::new() }
    }

    /// Takes the bytes of one read; returns the samples now complete.
    pub fn push(&mut self, bytes: &[u8]) -> (r: Vec<u32>)
        ensures
            r@ == words(old(self).spec_pending() + bytes@),
            final(self).spec_pending() == leftover(old(self).spec_pending() + bytes@),
    {
        let mut all: Vec<u8> = Vec::new();
        let mut i: usize = 0;
        while i < self.pending.len()
            invariant
                i <= self.pending@.len(),
                all@ == self.pending@.take(i as int),
            decreases self.pending@.len() - i,
        {
            all.push(self.pending[i]);
            i = i + 1;
            assert(all@ =~= self.pending@.take(i as int));
        }
        let mut j: usize = 0;
        while j < bytes.len()
            invariant
                j <= bytes@.len(),
                all@ == self.pending@ + bytes@.take(j as int),
            decreases bytes@.len() - j,
        {
            all.push(bytes[j]);
            j = j + 1;
            assert(all@ =~= self.pending@ + bytes@.take(j as int));
        }
        assert(self.pending@.take(self.pending@.len() as int) =~= self.pending@);
        assert(bytes@.take(bytes@.len() as int) =~= bytes@);
        let ghost stream = all@;
        let n = all.len();
        let mut out: Vec<u32> = Vec::new();
        let mut pos: usize = 0;
        while n - pos >= 4
            invariant
                n == all@.len(),
                all@ == stream,
                pos <= n,
                pos == 4 * out@.len(),
                forall|k: int| 0 <= k < out@.len() ==> #[trigger] out@[k] == le_word(
                    stream[4 * k], stream[4 * k + 1], stream[4 * k + 2], stream[4 * k + 3]),
            decreases n - pos,
        {
            let w: u32 = all[pos] as u32 + 256 * (all[pos + 1] as u32) + 65536 * (all[pos + 2] as u32)
                + 16777216 * (all[pos + 3] as u32);
            out.push(w);
            pos = pos + 4;
        }
        let ghost k = out@.len();
        assert(k == n / 4) by (nonlinear_arith)
            requires
                pos == 4 * k,
                pos <= n,
                n - pos < 4,
        ;
        assert(out@ =~= words(stream));
        let mut rest: Vec<u8> = Vec::new();
        let mut t: usize = pos;
        while t < n
            invariant
                n == all@.len(),
                pos <= t <= n,
                rest@ == all@.subrange(pos as int, t as int),
            decreases n - t,
        {
            rest.push(all[t]);
            t = t + 1;
            assert(rest@ =~= all@.subrange(pos as int, t as int));
        }
        self.pending = rest;
        out
    }
}

/// Framing does not depend on where reads end: the words of a stream
/// read in two parts are the words of the first part followed by the
/// words of its leftover and the second part, and the same bytes are left.
pub proof fn lemma_framing_ignores_read_boundaries(s: Seq<u8>, t: Seq<u8>)
    ensures
        words(s) + words(leftover(s) + t) == words(s + t),
        leftover(leftover(s) + t) == leftover(s + t),
{
    let q: int = (s.len() / 4) as int;
    let u = s + t;
    let v = leftover(s) + t;
    assert(v =~= u.subrange(4 * q, u.len() as int));
    assert(v.len() / 4 + q == u.len() / 4 && 4 * (v.len() / 4) + 4 * q == 4 * (u.len() / 4)) by (nonlinear_arith)
        requires
            v.len() == u.len() - 4 * q,
            4 * q <= s.len() <= u.len(),
            s.len() - 4 * q < 4,
            q >= 0,
    ;
    assert forall|i: int| 0 <= i < words(u).len() implies #[trigger] (words(s) + words(v))[i] == words(u)[i] by {
        if i < q {
            assert(4 * i + 3 < s.len()) by (nonlinear_arith)
                requires
                    i < q,
                    q == s.len() / 4,
                    i >= 0,
            ;
        } else {
            let m = i - q;
            assert(4 * m + 3 < v.len()) by (nonlinear_arith)
                requires
                    m >= 0,
                    m < v.len() / 4,
            ;
            assert(v[4 * m] == u[4 * i]);
            assert(v[4 * m + 1] == u[4 * i + 1]);
            assert(v[4 * m + 2] == u[4 * i + 2]);
            assert(v[4 * m + 3] == u[4 * i + 3]);
        }
    }
    assert(words(s) + words(v) =~= words(u));
    assert(leftover(v) =~= leftover(u));
}

/// A word keeps its four bytes, least significant first: the lowest byte
/// is the first, the highest the last, so the bytes can be read back.
pub proof fn lemma_le_word_bytes(b0: u8, b1: u8, b2: u8, b3: u8)
    ensures
        le_word(b0, b1, b2, b3) as int % 256 == b0,
        (le_word(b0, b1, b2, b3) as int / 256) % 256 == b1,
        (le_word(b0, b1, b2, b3) as int / 65536) % 256 == b2,
        le_word(b0, b1, b2, b3) as int / 16777216 == b3,
{
    let v: int = b0 + 256 * b1 + 65536 * b2 + 16777216 * b3;
    assert(0 <= v < 0x1_0000_0000);
    assert(le_word(b0, b1, b2, b3) as int == v);
    assert(v % 256 == b0 && (v / 256) % 256 == b1 && (v / 65536) % 256 == b2 && v / 16777216 == b3) by (nonlinear_arith)
        requires
            v == b0 + 256 * b1 + 65536 * b2 + 16777216 * b3,
            0 <= b0 < 256,
            0 <= b1 < 256,
            0 <= b2 < 256,
            0 <= b3 < 256,
    ;
}

/// Framing accounts for every byte: each word takes four bytes, fewer than
/// four are left over, and word `i` is made of bytes `4i` to `4i + 3`.
pub proof fn lemma_framing_accounts_for_every_byte(s: Seq<u8>)
    ensures
        4 * words(s).len() + leftover(s).len() == s.len(),
        leftover(s).len() < 4,
        forall|i: int| 0 <= i < words(s).len() ==> 4 * i + 3 < s.len() && #[trigger] words(s)[i] == le_word(
            s[4 * i], s[4 * i + 1], s[4 * i + 2], s[4 * i + 3]),
{
    let q = s.len() / 4;
    assert(4 * q <= s.len() && s.len() - 4 * q < 4) by (nonlinear_arith)
        requires
            q == s.len() / 4,
    ;
    assert forall|i: int| 0 <= i < words(s).len() implies 4 * i + 3 < s.len() && #[trigger] words(s)[i] == le_word(
        s[4 * i], s[4 * i + 1], s[4 * i + 2], s[4 * i + 3]) by {
        assert(4 * i + 3 < s.len()) by (nonlinear_arith)
            requires
                0 <= i < q,
                4 * q <= s.len(),
        ;
    }
}

/// The first argument names the source, unchanged, after `--device=`; the
/// others fix the sample format, rate, channel count and raw output.
pub proof fn lemma_parec_names_device(device: Seq<char>)
    ensures
        parec_arg_views(device).len() == 5,
        parec_arg_views(device)[0].subrange(9, parec_arg_views(device)[0].len() as int) == device,
        parec_arg_views(device)[0].subrange(0, 9) == "--device="@,
        parec_arg_views(device)[2] == "--rate=16000"@,
        parec_arg_views(device)[3] == "--channels=1"@,
{
    reveal_strlit("--device=");
    assert(parec_arg_views(device)[0].subrange(9, parec_arg_views(device)[0].len() as int) =~= device);
    assert(parec_arg_views(device)[0].subrange(0, 9) =~= "--device="@);
}

/// The arguments `parec` records a named source with: 32-bit float
/// little-endian, 16 kHz, mono, raw samples.
pub open spec fn parec_arg_views(device: Seq<char>) -> Seq<Seq<char>> {
    seq![
        "--device="@ + device,
        "--format=float32le"@,
        "--rate=16000"@,
        "--channels=1"@,
        "--raw"@,
    ]
}

/// The arguments for `parec` to record the named source.
pub fn parec_args(device: &str) -> (r: Vec<String>)
    ensures
        r@.map_values(|s: String| s@) == parec_arg_views(device@),
{
    let first = String::from_str("--device=").concat(device);
    let r = vec![
        first,
        String::from_str("--format=float32le"),
        String::from_str("--rate=16000"),
        String::from_str("--channels=1"),
        String::from_str("--raw"),
    ];
    assert(r@.map_values(|s: String| s@) =~= parec_arg_views(device@));
    r
}

} // verus!
