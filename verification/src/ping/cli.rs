//! The command line of the probe and what is read from it.

use crate::common::{
    arg, flag, number_or_complaint, parse_int, parse_size, App, AppModel, ArgMatches, ArgModel,
};
use crate::ping::resolve::{
    choose_destination, chosen, lemma_chosen_properties, Destination, IPversion, ResolveError,
};
use vstd::prelude::*;
use vstd::string::*;

verus! {

/// The command line of the probe: the destination, and options for the IP
/// version, the protocol, the number of probes and the two waiting times.
pub open spec fn command_line() -> AppModel {
    AppModel::named("toa-ping"@).about("\nKawaii ping tool."@).after_help(
        "Destination format: <host>[:<port>]\n"@,
    ).arg(ArgModel::named("destination"@).required(true).help("Destination to ping."@)).arg(
        ArgModel::flagged("forever"@).short("f"@).help("Keeps going forever."@),
    ).arg(ArgModel::flagged("4"@).help("Enforce IPv4 version."@).overrides_with("6"@)).arg(
        ArgModel::flagged("6"@).help("Enforce IPv6 version."@).overrides_with("4"@),
    ).arg(
        ArgModel::flagged("protocol"@).short("p"@).takes_value(true).default_value("tcp"@).help(
            "Specifies protocol to use. Available: tcp"@,
        ),
    ).arg(
        ArgModel::flagged("number"@).short("n"@).takes_value(true).default_value("4"@).help(
            "Number of ping packets to send."@,
        ),
    ).arg(
        ArgModel::flagged("interval"@).short("i"@).takes_value(true).default_value("500"@).help(
            "Time interval between pings in milliseconds."@,
        ),
    ).arg(
        ArgModel::flagged("timeout"@).short("w"@).takes_value(true).default_value("1000"@).help(
            "Time to wait for each response in milliseconds."@,
        ),
    )
}

/// Describes the command line of the probe.
pub fn parser() -> (app: App)
    ensures
        app@ == command_line(),
{
    App::new("toa-ping").about("\nKawaii ping tool.").after_help(
        "Destination format: <host>[:<port>]\n",
    ).arg(arg("destination").required(true).help("Destination to ping.")).arg(
        flag("forever").short("f").help("Keeps going forever."),
    ).arg(flag("4").help("Enforce IPv4 version.").overrides_with("6")).arg(
        flag("6").help("Enforce IPv6 version.").overrides_with("4"),
    ).arg(
        flag("protocol").short("p").takes_value(true).default_value("tcp").help(
            "Specifies protocol to use. Available: tcp",
        ),
    ).arg(
        flag("number").short("n").takes_value(true).default_value("4").help(
            "Number of ping packets to send.",
        ),
    ).arg(
        flag("interval").short("i").takes_value(true).default_value("500").help(
            "Time interval between pings in milliseconds.",
        ),
    ).arg(
        flag("timeout").short("w").takes_value(true).default_value("1000").help(
            "Time to wait for each response in milliseconds.",
        ),
    )
}

/// The switches of the probe.
#[derive(Clone, Copy, Debug, PartialEq, Eq, Structural)]
pub struct Flags {
    /// Whether to keep probing without a limit on the number of probes.
    pub forever: bool,
}

impl Default for Flags {
    fn default() -> (flags: Flags)
        ensures
            !flags.forever,
    {
        Flags { forever: false }
    }
}

impl Flags {
    pub open spec fn spec_from_parsed(matches: &ArgMatches) -> Flags {
        Flags { forever: matches@.contains_key("forever"@) }
    }

    /// Reads the switches: `forever` is set when it was found.
    pub fn from_parsed(matches: &ArgMatches) -> (flags: Flags)
        ensures
            flags == Flags::spec_from_parsed(matches),
    {
        Flags { forever: matches.is_present("forever") }
    }
}

/// How a destination is probed.
#[derive(Clone, Copy, Debug, PartialEq, Eq, Structural)]
pub enum Protocol {
    /// By opening a TCP connection.
    TCP,
}

/// Whether `c` is the letter `lower` in either case.
pub open spec fn is_letter(c: char, lower: char, upper: char) -> bool {
    c == lower || c == upper
}

impl Protocol {
    /// Whether `name` is the word `tcp`, in any mix of upper and lower
    /// case.
    pub open spec fn names_tcp(name: Seq<char>) -> bool {
        &&& name.len() == 3
        &&& is_letter(name[0], 't', 'T')
        &&& is_letter(name[1], 'c', 'C')
        &&& is_letter(name[2], 'p', 'P')
    }

    /// The complaint about a name that no protocol has.
    pub open spec fn unknown(name: Seq<char>) -> Seq<char> {
        "Unknown protocol '"@ + name + "' provided"@
    }

    pub open spec fn spec_from_str(name: Seq<char>) -> Result<Protocol, Seq<char>> {
        if Protocol::names_tcp(name) {
            Ok(Protocol::TCP)
        } else {
            Err(Protocol::unknown(name))
        }
    }

    /// The protocol called `name`, whatever the case of its letters.
    pub fn from_str(name: &str) -> (r: Result<Protocol, String>)
        ensures
            match r {
                Ok(protocol) => Protocol::spec_from_str(name@) == Ok::<Protocol, Seq<char>>(
                    protocol,
                ),
                Err(complaint) => Protocol::spec_from_str(name@) == Err::<Protocol, Seq<char>>(
                    complaint@,
                ),
            },
    {
        let mut known = false;
        if name.unicode_len() == 3 {
            let t = name.get_char(0);
            let c = name.get_char(1);
            let p = name.get_char(2);
            known = (t == 't' || t == 'T') && (c == 'c' || c == 'C') && (p == 'p' || p == 'P');
        }
        if known {
            Ok(Protocol::TCP)
        } else {
            let mut complaint = "Unknown protocol '".to_owned();
            complaint.append(name);
            complaint.append("' provided");
            Err(complaint)
        }
    }
}

/// The settings of a run.
#[derive(Clone, Copy, Debug, PartialEq, Eq, Structural)]
pub struct Options {
    /// How many probes to send.
    pub number: usize,
    /// The pause between two probes, in milliseconds.
    pub interval: u64,
    /// How long one probe may wait for its answer, in milliseconds.
    pub timeout: u64,
    /// The IP version that the run is held to.
    pub domain: IPversion,
    pub protocol: Protocol,
}

/// The IP version that the switches `4` and `6` ask for; `4` wins.
pub open spec fn demanded_version(matches: &ArgMatches) -> IPversion {
    if matches@.contains_key("4"@) {
        IPversion::V4
    } else if matches@.contains_key("6"@) {
        IPversion::V6
    } else {
        IPversion::Unconstrained
    }
}

impl Options {
    /// Whether each option that is read has a value.
    pub open spec fn readable(matches: &ArgMatches) -> bool {
        &&& matches.spec_value_of("number"@) is Some
        &&& matches.spec_value_of("interval"@) is Some
        &&& matches.spec_value_of("timeout"@) is Some
        &&& matches.spec_value_of("protocol"@) is Some
    }

    /// The settings that `matches` hold, or the complaint about the first
    /// option that cannot be read, in the order number, interval, timeout,
    /// protocol.
    pub open spec fn spec_from_parsed(matches: &ArgMatches) -> Result<Options, Seq<char>> {
        match number_or_complaint(matches.spec_value_of("number"@)->0, usize::MAX as nat) {
            Err(complaint) => Err(complaint),
            Ok(number) => match number_or_complaint(
                matches.spec_value_of("interval"@)->0,
                u64::MAX as nat,
            ) {
                Err(complaint) => Err(complaint),
                Ok(interval) => match number_or_complaint(
                    matches.spec_value_of("timeout"@)->0,
                    u64::MAX as nat,
                ) {
                    Err(complaint) => Err(complaint),
                    Ok(timeout) => match Protocol::spec_from_str(
                        matches.spec_value_of("protocol"@)->0,
                    ) {
                        Err(complaint) => Err(complaint),
                        Ok(protocol) => Ok(
                            Options {
                                number: number as usize,
                                interval: interval as u64,
                                timeout: timeout as u64,
                                domain: demanded_version(matches),
                                protocol,
                            },
                        ),
                    },
                },
            },
        }
    }

    /// Reads the settings of a run.
    pub fn from_parsed(matches: &ArgMatches) -> (r: Result<Options, String>)
        requires
            Options::readable(matches),
        ensures
            match r {
                Ok(options) => Options::spec_from_parsed(matches) == Ok::<Options, Seq<char>>(
                    options,
                ),
                Err(complaint) => Options::spec_from_parsed(matches) == Err::<
                    Options,
                    Seq<char>,
                >(complaint@),
            },
    {
        let number = match parse_size(matches.value_of("number").unwrap()) {
            Ok(number) => number,
            Err(complaint) => {
                return Err(complaint);
            },
        };
        let interval = match parse_int(matches.value_of("interval").unwrap()) {
            Ok(interval) => interval,
            Err(complaint) => {
                return Err(complaint);
            },
        };
        let timeout = match parse_int(matches.value_of("timeout").unwrap()) {
            Ok(timeout) => timeout,
            Err(complaint) => {
                return Err(complaint);
            },
        };
        let protocol = match Protocol::from_str(matches.value_of("protocol").unwrap()) {
            Ok(protocol) => protocol,
            Err(complaint) => {
                return Err(complaint);
            },
        };
        let domain = if matches.is_present("4") {
            IPversion::V4
        } else if matches.is_present("6") {
            IPversion::V6
        } else {
            IPversion::Unconstrained
        };
        Ok(Options { number, interval, timeout, domain, protocol })
    }
}

/// What the name lookup answered: the addresses found, or `None` where the
/// lookup failed. The destination is first looked up as it was given; if
/// that fails, and only then, it is looked up once more with port 0 added,
/// and the answer to that takes the place of the first.
#[derive(Clone, Debug)]
pub enum Lookup {
    AsGiven(Option<Vec<Destination>>),
    WithPortZero(Option<Vec<Destination>>),
}

impl Lookup {
    /// The addresses found, in the order in which they came.
    pub open spec fn answer(&self) -> Option<Seq<Destination>> {
        match self {
            Lookup::AsGiven(Some(found)) => Some(found@),
            Lookup::WithPortZero(Some(found)) => Some(found@),
            _ => None,
        }
    }

    /// Whether the second lookup is due.
    pub open spec fn spec_needs_retry(&self) -> bool {
        self matches Lookup::AsGiven(None)
    }

    /// Whether the destination is to be looked up once more, with port 0.
    #[verifier::when_used_as_spec(spec_needs_retry)]
    pub fn needs_retry(&self) -> (retry: bool)
        ensures
            retry == self.spec_needs_retry(),
            retry ==> self.answer() is None,
    {
        match self {
            Lookup::AsGiven(None) => true,
            _ => false,
        }
    }
}

impl ResolveError {
    /// The error in words; only `InvalidDestination` quotes the text.
    pub open spec fn spec_message(self, dest: Seq<char>) -> Seq<char> {
        match self {
            ResolveError::InvalidDestination => "Invalid destination: "@ + dest,
            ResolveError::UnresolvableDestination => {
                "Cannot resolve address of your destination :("@
            },
            ResolveError::NoAddressForFamily(IPversion::V4) => {
                "There is no IPv4 address to ping, baka!"@
            },
            ResolveError::NoAddressForFamily(IPversion::V6) => {
                "There is no IPv6 address to ping, baka!"@
            },
            ResolveError::NoAddressForFamily(IPversion::Unconstrained) => {
                "There is no address to ping, baka!"@
            },
        }
    }

    /// The error in words, for the destination text `dest`.
    pub fn message(&self, dest: &str) -> (text: String)
        ensures
            text@ == self.spec_message(dest@),
    {
        match self {
            ResolveError::InvalidDestination => {
                let mut text = "Invalid destination: ".to_owned();
                text.append(dest);
                text
            },
            ResolveError::UnresolvableDestination => {
                "Cannot resolve address of your destination :(".to_owned()
            },
            ResolveError::NoAddressForFamily(IPversion::V4) => {
                "There is no IPv4 address to ping, baka!".to_owned()
            },
            ResolveError::NoAddressForFamily(IPversion::V6) => {
                "There is no IPv6 address to ping, baka!".to_owned()
            },
            ResolveError::NoAddressForFamily(IPversion::Unconstrained) => {
                "There is no address to ping, baka!".to_owned()
            },
        }
    }
}

/// The address that a lookup leads to under `preference`.
pub open spec fn resolution(lookup: &Lookup, preference: IPversion) -> Result<
    Destination,
    ResolveError,
> {
    match lookup.answer() {
        None => Err(ResolveError::InvalidDestination),
        Some(candidates) => chosen(candidates, preference),
    }
}

/// Chooses the address to probe among the answers of the lookup, which
/// has been repeated if that was due. A run
/// that is held to one IP version takes the first address of that version;
/// one that is not takes the first address and is from then on held to its
/// version. An address without a port gets port 80. A failure leaves the
/// settings as they were.
pub fn resolve_ip(lookup: &Lookup, opts: &mut Options) -> (r: Result<Destination, ResolveError>)
    requires
        !lookup.spec_needs_retry(),
    ensures
        r == resolution(lookup, old(opts).domain),
        *final(opts) == match r {
            Ok(destination) => (Options { domain: destination.family(), ..*old(opts) }),
            Err(_) => *old(opts),
        },
        r matches Ok(destination) ==> destination.spec_port() != 0 && final(opts).domain
            != IPversion::Unconstrained,
        old(opts).domain != IPversion::Unconstrained ==> final(opts).domain == old(opts).domain,
{
    let found = match lookup {
        Lookup::AsGiven(Some(found)) => found,
        Lookup::WithPortZero(Some(found)) => found,
        _ => {
            return Err(ResolveError::InvalidDestination);
        },
    };
    proof {
        lemma_chosen_properties(found@, opts.domain);
    }
    match choose_destination(found, opts.domain) {
        Ok(destination) => {
            opts.domain = destination.version();
            Ok(destination)
        },
        Err(e) => Err(e),
    }
}

/// All that a run is started with.
#[derive(Clone, Copy, Debug, PartialEq, Eq, Structural)]
pub struct Args {
    pub flags: Flags,
    pub opts: Options,
    pub destination: Destination,
}

impl Args {
    /// The arguments of a run, or the complaint that ends it: about the
    /// first setting that cannot be read, else about the destination.
    pub open spec fn spec_new(matches: &ArgMatches, lookup: &Lookup) -> Result<Args, Seq<char>> {
        match Options::spec_from_parsed(matches) {
            Err(complaint) => Err(complaint),
            Ok(opts) => match resolution(lookup, opts.domain) {
                Err(e) => Err(e.spec_message(matches.spec_value_of("destination"@)->0)),
                Ok(destination) => Ok(
                    Args {
                        flags: Flags::spec_from_parsed(matches),
                        opts: Options { domain: destination.family(), ..opts },
                        destination,
                    },
                ),
            },
        }
    }

    /// Reads the arguments of a run from what was found on the command
    /// line and from what the lookup of the destination answered.
    pub fn new(matches: &ArgMatches, lookup: &Lookup) -> (r: Result<Args, String>)
        requires
            Options::readable(matches),
            matches.spec_value_of("destination"@) is Some,
            !lookup.spec_needs_retry(),
        ensures
            match r {
                Ok(args) => Args::spec_new(matches, lookup) == Ok::<Args, Seq<char>>(args),
                Err(complaint) => Args::spec_new(matches, lookup) == Err::<Args, Seq<char>>(
                    complaint@,
                ),
            },
    {
        let flags = Flags::from_parsed(matches);
        let mut opts = match Options::from_parsed(matches) {
            Ok(opts) => opts,
            Err(complaint) => {
                return Err(complaint);
            },
        };
        match resolve_ip(lookup, &mut opts) {
            Ok(destination) => Ok(Args { flags, opts, destination }),
            Err(e) => Err(e.message(matches.value_of("destination").unwrap())),
        }
    }
}

} // verus!
