//! The description of the entry points for measurements: which constructors
//! there are, what each takes, in order, and what it gives.

use vstd::prelude::*;
use crate::meas::MeasurementKind;

verus! {

/// What is said of one entry point, in mathematical form.
pub struct Entry {
    pub name: Seq<char>,
    /// The arguments in order, each as its type and its name.
    pub args: Seq<(Seq<char>, Seq<char>)>,
    /// What the entry point gives.
    pub ret: Seq<char>,
}

/// What is said of one entry point. Its view is an `Entry`.
#[derive(Debug, PartialEq, Eq)]
pub struct EntryPoint {
    pub name: &'static str,
    pub args: Vec<(&'static str, &'static str)>,
    pub ret: &'static str,
}

impl View for EntryPoint {
    type V = Entry;

    open spec fn view(&self) -> Entry {
        Entry {
            name: self.name@,
            args: Seq::new(self.args@.len(), |i: int| (self.args@[i].0@, self.args@[i].1@)),
            ret: self.ret@,
        }
    }
}

/// The constructors of measurements, each once.
pub open spec fn constructors() -> Seq<MeasurementKind> {
    seq![
        MeasurementKind::BaseLaplace,
        MeasurementKind::BaseLaplaceVec,
        MeasurementKind::BaseGaussian,
        MeasurementKind::RandomizedResponseBool,
        MeasurementKind::RandomizedResponse,
    ]
}

/// What every constructor gives: a result that holds a handle to a
/// measurement or an error.
pub open spec fn result_kind() -> Seq<char> {
    "FfiResult<AnyMeasurement *>"@
}

/// What is said of the constructor of `kind`: the name under which it is
/// called, its arguments in the order in which it takes them, and what it
/// gives.
pub open spec fn entry_of(kind: MeasurementKind) -> Entry {
    match kind {
        MeasurementKind::BaseLaplace => Entry {
            name: "make_base_laplace"@,
            args: seq![("const char *"@, "type_args"@), ("double"@, "sigma"@)],
            ret: result_kind(),
        },
        MeasurementKind::BaseLaplaceVec => Entry {
            name: "make_base_laplace_vec"@,
            args: seq![("const char *"@, "type_args"@), ("double"@, "sigma"@)],
            ret: result_kind(),
        },
        MeasurementKind::BaseGaussian => Entry {
            name: "make_base_gaussian"@,
            args: seq![("const char *"@, "type_args"@), ("double"@, "sigma"@)],
            ret: result_kind(),
        },
        MeasurementKind::RandomizedResponseBool => Entry {
            name: "make_randomized_response_bool"@,
            args: seq![
                ("const void *"@, "prob"@),
                ("bool"@, "constant_time"@),
                ("const char *"@, "Q"@),
            ],
            ret: result_kind(),
        },
        MeasurementKind::RandomizedResponse => Entry {
            name: "make_randomized_response"@,
            args: seq![
                ("const AnyObject *"@, "categories"@),
                ("const void *"@, "prob"@),
                ("bool"@, "constant_time"@),
                ("const char *"@, "T"@),
                ("const char *"@, "Q"@),
            ],
            ret: result_kind(),
        },
    }
}

/// The entries of the manifest: one for each constructor, in the order of
/// `constructors`.
pub open spec fn entries() -> Seq<Entry> {
    Seq::new(constructors().len(), |i: int| entry_of(constructors()[i]))
}

/// One argument as the manifest writes it: its type, then its name.
pub open spec fn written_arg(arg: (Seq<char>, Seq<char>)) -> Seq<char> {
    "[\""@ + arg.0 + "\", \""@ + arg.1 + "\"]"@
}

/// The first `count` arguments as the manifest writes them, joined by `", "`.
pub open spec fn written_args(args: Seq<(Seq<char>, Seq<char>)>, count: nat) -> Seq<char>
    decreases count,
{
    if count == 0 || count > args.len() {
        Seq::empty()
    } else if count == 1 {
        written_arg(args[0])
    } else {
        written_args(args, (count - 1) as nat) + ", "@ + written_arg(args[count - 1])
    }
}

/// One entry as the manifest writes it.
pub open spec fn written(entry: Entry) -> Seq<char> {
    "    { \"name\": \""@ + entry.name + "\", \"args\": [ "@ + written_args(
        entry.args,
        entry.args.len(),
    ) + " ], \"ret\": \""@ + entry.ret + "\" }"@
}

/// The first `count` entries as the manifest writes them, one to a line.
pub open spec fn written_entries(all: Seq<Entry>, count: nat) -> Seq<char>
    decreases count,
{
    if count == 0 || count > all.len() {
        Seq::empty()
    } else if count == 1 {
        written(all[0])
    } else {
        written_entries(all, (count - 1) as nat) + ",\n"@ + written(all[count - 1])
    }
}

/// The manifest: every constructor of a measurement, each once, with its
/// arguments in order and with what it gives.
pub open spec fn manifest() -> Seq<char> {
    "{\n\"functions\": [\n"@ + written_entries(entries(), entries().len()) + "\n]\n}"@
}

impl MeasurementKind {
    /// What the manifest says of the constructor of this measurement.
    pub fn entry_point(self) -> (r: EntryPoint)
        ensures
            r@ == entry_of(self),
    {
        let ret = "FfiResult<AnyMeasurement *>";
        let mut args: Vec<(&'static str, &'static str)> = Vec::new();
        let name = match self {
            MeasurementKind::BaseLaplace => {
                args.push(("const char *", "type_args"));
                args.push(("double", "sigma"));
                "make_base_laplace"
            },
            MeasurementKind::BaseLaplaceVec => {
                args.push(("const char *", "type_args"));
                args.push(("double", "sigma"));
                "make_base_laplace_vec"
            },
            MeasurementKind::BaseGaussian => {
                args.push(("const char *", "type_args"));
                args.push(("double", "sigma"));
                "make_base_gaussian"
            },
            MeasurementKind::RandomizedResponseBool => {
                args.push(("const void *", "prob"));
                args.push(("bool", "constant_time"));
                args.push(("const char *", "Q"));
                "make_randomized_response_bool"
            },
            MeasurementKind::RandomizedResponse => {
                args.push(("const AnyObject *", "categories"));
                args.push(("const void *", "prob"));
                args.push(("bool", "constant_time"));
                args.push(("const char *", "T"));
                args.push(("const char *", "Q"));
                "make_randomized_response"
            },
        };
        let r = EntryPoint { name, args, ret };
        assert(r@.args =~= entry_of(self).args);
        r
    }
}

impl EntryPoint {
    /// This entry as the manifest writes it.
    pub fn render(&self) -> (r: String)
        ensures
            r@ == written(self@),
    {
        let mut text = "    { \"name\": \"".to_owned();
        text.append(self.name);
        text.append("\", \"args\": [ ");
        let ghost head = text@;
        let ghost args = self@.args;
        let mut i: usize = 0;
        while i < self.args.len()
            invariant
                i <= self.args.len(),
                args == self@.args,
                text@ == head + written_args(args, i as nat),
            decreases self.args.len() - i,
        {
            let ghost before = written_args(args, i as nat);
            if i > 0 {
                text.append(", ");
            }
            text.append("[\"");
            text.append(self.args[i].0);
            text.append("\", \"");
            text.append(self.args[i].1);
            text.append("\"]");
            proof {
                let arg = written_arg(args[i as int]);
                assert(arg =~= "[\""@ + self.args@[i as int].0@ + "\", \""@ + self.args@[i as int].1@
                    + "\"]"@);
                if i == 0 {
                    assert(before =~= Seq::<char>::empty());
                    assert(text@ =~= head + arg);
                } else {
                    assert(text@ =~= head + (before + ", "@ + arg));
                }
            }
            i += 1;
        }
        text.append(" ], \"ret\": \"");
        text.append(self.ret);
        text.append("\" }");
        assert(text@ =~= written(self@));
        text
    }
}

/// The constructors of measurements, each once.
pub fn constructor_list() -> (r: Vec<MeasurementKind>)
    ensures
        r@ == constructors(),
{
    let mut all: Vec<MeasurementKind> = Vec::new();
    all.push(MeasurementKind::BaseLaplace);
    all.push(MeasurementKind::BaseLaplaceVec);
    all.push(MeasurementKind::BaseGaussian);
    all.push(MeasurementKind::RandomizedResponseBool);
    all.push(MeasurementKind::RandomizedResponse);
    assert(all@ =~= constructors());
    all
}

/// Writes the manifest.
pub fn write_manifest() -> (r: String)
    ensures
        r@ == manifest(),
{
    let all = constructor_list();
    let mut text = "{\n\"functions\": [\n".to_owned();
    let ghost head = text@;
    let mut i: usize = 0;
    while i < all.len()
        invariant
            i <= all.len(),
            all@ == constructors(),
            text@ == head + written_entries(entries(), i as nat),
        decreases all.len() - i,
    {
        let ghost before = written_entries(entries(), i as nat);
        if i > 0 {
            text.append(",\n");
        }
        let line = all[i].entry_point().render();
        text.append(line.as_str());
        proof {
            let entry = written(entries()[i as int]);
            assert(line@ == entry);
            if i == 0 {
                assert(before =~= Seq::<char>::empty());
                assert(text@ =~= head + entry);
            } else {
                assert(text@ =~= head + (before + ",\n"@ + entry));
            }
        }
        i += 1;
    }
    text.append("\n]\n}");
    assert(text@ =~= manifest());
    text
}

/// Every constructor of a measurement has an entry in the manifest, and one
/// only: no constructor is left out, none is listed twice, and no two go by
/// the same name.
pub proof fn lemma_every_constructor_is_listed_once(kind: MeasurementKind)
    ensures
        exists|i: int|
            0 <= i < entries().len() && constructors()[i] == kind && #[trigger] entries()[i]
                == entry_of(kind),
        forall|i: int, j: int|
            0 <= i < constructors().len() && 0 <= j < constructors().len() && constructors()[i]
                == constructors()[j] ==> i == j,
        forall|other: MeasurementKind| entry_of(other).name == entry_of(kind).name ==> other == kind,
{
    reveal_strlit("make_base_laplace");
    reveal_strlit("make_base_laplace_vec");
    reveal_strlit("make_base_gaussian");
    reveal_strlit("make_randomized_response_bool");
    reveal_strlit("make_randomized_response");
    let i: int = match kind {
        MeasurementKind::BaseLaplace => 0,
        MeasurementKind::BaseLaplaceVec => 1,
        MeasurementKind::BaseGaussian => 2,
        MeasurementKind::RandomizedResponseBool => 3,
        MeasurementKind::RandomizedResponse => 4,
    };
    assert(constructors()[i] == kind);
    assert(entries()[i] == entry_of(kind));
    assert(entry_of(MeasurementKind::BaseLaplace).name.len() == 17);
    assert(entry_of(MeasurementKind::BaseLaplaceVec).name.len() == 21);
    assert(entry_of(MeasurementKind::BaseGaussian).name.len() == 18);
    assert(entry_of(MeasurementKind::RandomizedResponseBool).name.len() == 29);
    assert(entry_of(MeasurementKind::RandomizedResponse).name.len() == 24);
}

/// Every entry of the manifest says that its constructor gives a result, and
/// names as many arguments as the constructor takes.
pub proof fn lemma_entries_give_results(kind: MeasurementKind)
    ensures
        entry_of(kind).ret == result_kind(),
        entry_of(kind).args.len() == (match kind {
            MeasurementKind::BaseLaplace => 2nat,
            MeasurementKind::BaseLaplaceVec => 2nat,
            MeasurementKind::BaseGaussian => 2nat,
            MeasurementKind::RandomizedResponseBool => 3nat,
            MeasurementKind::RandomizedResponse => 5nat,
        }),
{
}

} // verus!
