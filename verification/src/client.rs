//! What a client program decides from plain values: its settings, the
//! events that it passes around, the line that names the server in use, how
//! long it goes on reading a reply, and whether the server's workers seem
//! able to start at all.

use crate::text::{decimal_digits, parse_decimal, parse_unsigned, push_decimal};
use vstd::prelude::*;
use vstd::utf8::encode_utf8;

verus! {

/// The settings of a client program.
#[derive(Clone, Copy, Debug, Default)]
pub struct Args {
    /// How much to say.
    pub verbose: u8,
    /// The seed for every random choice, for runs that repeat.
    pub random_seed: Option<usize>,
}

/// A prompt for the server: its kind and its text.
pub struct PromptToAI(pub String, pub String);

/// A reply from the server: its kind, and the text of a text reply or the
/// path of a picture.
pub struct ResponseFromAI(pub String, pub String);

/// Marks the part of the window that shows the reply.
#[allow(non_camel_case_types)]
pub struct LLM_ReplyText;

/// Marks the part of the window that names the server.
#[allow(non_camel_case_types)]
pub struct Server_URL;

/// Marks the picture behind the text.
#[allow(non_camel_case_types)]
pub struct Background_Image;

/// Marks the picture of the speaker.
#[allow(non_camel_case_types)]
pub struct Foreground_Character;

/// The seed that the text writes, if it writes one that fits.
pub open spec fn seed_of(text: Seq<char>) -> Option<usize> {
    match parse_unsigned(encode_utf8(text), usize::MAX as nat) {
        Some(seed) => Some(seed as usize),
        None => None,
    }
}

impl Args {
    /// Takes the seed from the value of `RANDOM_SEED` in the environment,
    /// unless one is set already or the value writes none.
    pub fn update_from_env(&mut self, value: Option<&str>)
        ensures
            final(self).verbose == old(self).verbose,
            final(self).random_seed == match (old(self).random_seed, value) {
                (None, Some(text)) => seed_of(text@),
                _ => old(self).random_seed,
            },
    {
        if self.random_seed.is_none() {
            match value {
                Some(text) => match parse_decimal(text, usize::MAX as u64) {
                    Some(seed) => {
                        self.random_seed = Some(seed as usize);
                    },
                    None => {},
                },
                None => {},
            }
        }
    }
}

/// Whether the window is shown now: at the third frame, when there is
/// something to show.
pub fn make_visible(frames: u32) -> (r: bool)
    ensures
        r == (frames == 3),
{
    frames == 3
}

/// For each text input, whether it is inactive once the input `pressed`
/// was pressed: every one but that.
pub fn focus(pressed: u64, inputs: &Vec<u64>) -> (r: Vec<bool>)
    ensures
        r@.len() == inputs@.len(),
        forall|i: int| 0 <= i < r@.len() ==> #[trigger] r@[i] == (inputs@[i] != pressed),
{
    let mut inactive: Vec<bool> = Vec::new();
    let mut i: usize = 0;
    while i < inputs.len()
        invariant
            i <= inputs@.len(),
            inactive@.len() == i,
            forall|k: int| 0 <= k < i ==> #[trigger] inactive@[k] == (inputs@[k] != pressed),
        decreases inputs.len() - i,
    {
        inactive.push(inputs[i] != pressed);
        i = i + 1;
    }
    inactive
}

/// The prompt that a submitted line of text becomes.
pub fn text_listener(submitted: &str) -> (r: PromptToAI)
    ensures
        r.0@ == "text"@,
        r.1@ == submitted@,
{
    PromptToAI(String::from_str("text"), String::from_str(submitted))
}

/// Takes every reply that has come in, in the order in which they came.
pub fn drain_global_events_to_bevy(queue: &mut Vec<ResponseFromAI>) -> (r: Vec<ResponseFromAI>)
    ensures
        r@ == old(queue)@,
        final(queue)@.len() == 0,
{
    let mut taken: Vec<ResponseFromAI> = Vec::new();
    core::mem::swap(&mut taken, queue);
    taken
}

/// The devices of a server, numbered from zero and set apart by ` // `.
pub open spec fn device_list(devices: Seq<Seq<char>>) -> Seq<char>
    decreases devices.len(),
{
    if devices.len() == 0 {
        Seq::empty()
    } else {
        let last = "("@ + decimal_digits((devices.len() - 1) as nat) + ") "@ + devices.last();
        if devices.len() == 1 {
            last
        } else {
            device_list(devices.drop_last()) + " // "@ + last
        }
    }
}

/// The text that names the server in use and its devices.
pub open spec fn server_text(server_url: Seq<char>, devices: Seq<Seq<char>>) -> Seq<char> {
    "Server: "@ + server_url + "\n"@ + device_list(devices)
}

/// The characters of each text.
pub open spec fn texts_of(texts: Seq<String>) -> Seq<Seq<char>> {
    Seq::new(texts.len(), |i: int| texts[i]@)
}

/// The text that names the server in use, due at every 24th frame.
pub fn render_server_url_in_use(frames: u32, server_url: &str, devices: &Vec<String>) -> (r: Option<
    String,
>)
    ensures
        match r {
            Some(text) => frames % 24 == 0 && text@ == server_text(server_url@, texts_of(devices@)),
            None => frames % 24 != 0,
        },
{
    if frames % 24 != 0 {
        return None;
    }
    let mut list = String::new();
    let mut i: usize = 0;
    while i < devices.len()
        invariant
            i <= devices@.len(),
            list@ == device_list(texts_of(devices@).take(i as int)),
        decreases devices.len() - i,
    {
        let ghost before = texts_of(devices@).take(i as int);
        let ghost after = texts_of(devices@).take(i + 1);
        proof {
            assert(after.drop_last() =~= before);
        }
        if i > 0 {
            list.append(" // ");
        }
        list.append("(");
        push_decimal(&mut list, i as u128);
        list.append(") ");
        list.append(devices[i].as_str());
        i = i + 1;
    }
    assert(texts_of(devices@).take(i as int) =~= texts_of(devices@));
    let mut out = String::from_str("Server: ");
    out.append(server_url);
    out.append("\n");
    out.append(list.as_str());
    Some(out)
}

/// The sum of the restart counts.
pub open spec fn restarts_total(data: Seq<(String, u32)>) -> nat
    decreases data.len(),
{
    if data.len() == 0 {
        0
    } else {
        restarts_total(data.drop_last()) + data.last().1 as nat
    }
}

/// How often the workers of a server were started, all together, as far as
/// a `usize` can count.
pub fn tally_server_subproc_restarts(data: &Vec<(String, u32)>) -> (r: usize)
    ensures
        r == if restarts_total(data@) <= usize::MAX {
            restarts_total(data@)
        } else {
            usize::MAX as nat
        },
{
    let mut total: u128 = 0;
    let mut i: usize = 0;
    while i < data.len()
        invariant
            i <= data@.len(),
            total == restarts_total(data@.take(i as int)),
            total <= i * 0xffff_ffff,
        decreases data.len() - i,
    {
        proof {
            assert(data@.take(i + 1).drop_last() =~= data@.take(i as int));
        }
        total = total + data[i].1 as u128;
        i = i + 1;
    }
    assert(data@.take(i as int) =~= data@);
    if total <= usize::MAX as u128 {
        total as usize
    } else {
        usize::MAX
    }
}

/// How many workers a server has.
pub fn tally_expected_num_subprocs(data: &Vec<(String, u32)>) -> (r: usize)
    ensures
        r == data@.len(),
{
    data.len()
}

/// Whether the host seems to have the hardware that the workers need,
/// judged by their restart counts at two moments a while apart: it does
/// not if there were more starts than workers and their number still grew.
pub fn determine_if_we_have_local_gpu(
    t0_restarts: usize,
    t1_restarts: usize,
    expected_num_subprocs: usize,
) -> (r: bool)
    ensures
        r == !(t1_restarts > expected_num_subprocs && t1_restarts > t0_restarts),
{
    !(t1_restarts > expected_num_subprocs && t1_restarts > t0_restarts)
}

/// The server picked among `servers`, given for each whether it could be
/// connected to: the last one that could; none is the empty text.
pub fn scan_for_an_open_tcp_port_at(servers: &Vec<String>, connected: &Vec<bool>) -> (r: String)
    ensures
        (forall|i: int| 0 <= i < servers@.len() && i < connected@.len() ==> !connected@[i])
            ==> r@.len() == 0,
        forall|i: int|
            #![trigger connected@[i]]
            0 <= i < servers@.len() && i < connected@.len() && connected@[i] && (forall|j: int|
                i < j < servers@.len() && j < connected@.len() ==> !connected@[j]) ==> r@
                == servers@[i]@,
{
    let mut picked = String::new();
    let mut i: usize = 0;
    while i < servers.len() && i < connected.len()
        invariant
            i <= servers@.len(),
            i <= connected@.len(),
            (forall|k: int| 0 <= k < i ==> !connected@[k]) ==> picked@.len() == 0,
            forall|k: int|
                #![trigger connected@[k]]
                0 <= k < i && connected@[k] && (forall|j: int| k < j < i ==> !connected@[j])
                    ==> picked@ == servers@[k]@,
        decreases servers.len() - i,
    {
        if connected[i] {
            picked = servers[i].clone();
        }
        i = i + 1;
    }
    picked
}

/// What a call for the next chunk of a reply came to.
#[derive(Clone, Copy, Debug, PartialEq, Eq, Structural)]
pub enum TokenOutcome {
    /// A chunk came.
    Chunk,
    /// The stream said that it is over.
    End,
    /// The call failed.
    Failed,
}

/// The patience that a client starts to read a reply with.
pub const ALLOWED_ERRS: i64 = 12;

/// What an end of the stream costs of that patience.
pub const END_COST: i64 = 10;

/// A client's reading of one reply: it calls for chunks, and looks for the
/// picture in between, until its patience is used up.
#[derive(Clone, Copy, Debug, PartialEq, Eq, Structural)]
pub struct ReplyLoop {
    /// The patience left.
    pub remaining_allowed_errs: i64,
    /// Whether the picture is still to be fetched.
    pub image_pending: bool,
}

/// `patience` less `cost`, as far as an `i64` goes.
pub open spec fn spent(patience: i64, cost: i64) -> i64 {
    if patience - cost >= i64::MIN {
        (patience - cost) as i64
    } else {
        i64::MIN
    }
}

impl ReplyLoop {
    /// The reading of a reply at its start.
    pub fn new(image_pending: bool) -> (r: Self)
        ensures
            r == (ReplyLoop { remaining_allowed_errs: ALLOWED_ERRS, image_pending }),
    {
        ReplyLoop { remaining_allowed_errs: ALLOWED_ERRS, image_pending }
    }

    /// Whether the client calls for another chunk: as long as patience is
    /// left.
    pub fn goes_on(&self) -> (r: bool)
        ensures
            r == (self.remaining_allowed_errs >= 1),
    {
        self.remaining_allowed_errs >= 1
    }

    /// Takes in what a call for the next chunk came to: a chunk costs
    /// nothing, a failed call one, the end of the stream `END_COST`.
    pub fn after_token(&mut self, outcome: TokenOutcome)
        ensures
            final(self).image_pending == old(self).image_pending,
            final(self).remaining_allowed_errs == match outcome {
                TokenOutcome::Chunk => old(self).remaining_allowed_errs,
                TokenOutcome::Failed => spent(old(self).remaining_allowed_errs, 1),
                TokenOutcome::End => spent(old(self).remaining_allowed_errs, END_COST),
            },
    {
        let cost: i64 = match outcome {
            TokenOutcome::Chunk => 0,
            TokenOutcome::Failed => 1,
            TokenOutcome::End => END_COST,
        };
        self.pay(cost);
    }

    /// Takes in the answer to whether the picture is there, `None` for a
    /// call that failed, and says whether the picture is fetched now: it is
    /// once, when it is there and still to be fetched. A failed call costs
    /// one.
    pub fn after_image_probe(&mut self, exists_reply: Option<bool>) -> (fetch: bool)
        ensures
            fetch == (old(self).image_pending && exists_reply == Some(true)),
            final(self).image_pending == (old(self).image_pending && !fetch),
            final(self).remaining_allowed_errs == if old(self).image_pending
                && exists_reply is None {
                spent(old(self).remaining_allowed_errs, 1)
            } else {
                old(self).remaining_allowed_errs
            },
    {
        if !self.image_pending {
            return false;
        }
        match exists_reply {
            Some(true) => {
                self.image_pending = false;
                true
            },
            Some(false) => false,
            None => {
                self.pay(1);
                false
            },
        }
    }

    fn pay(&mut self, cost: i64)
        requires
            0 <= cost <= END_COST,
        ensures
            final(self).image_pending == old(self).image_pending,
            final(self).remaining_allowed_errs == spent(old(self).remaining_allowed_errs, cost),
    {
        if self.remaining_allowed_errs >= i64::MIN + cost {
            self.remaining_allowed_errs = self.remaining_allowed_errs - cost;
        } else {
            self.remaining_allowed_errs = i64::MIN;
        }
    }
}

} // verus!
