use vstd::prelude::*;
use vstd::string::StrSliceExecFns;

verus! {

/// The registered capabilities.
#[derive(Clone, Copy, Debug, PartialEq, Eq, Structural)]
pub enum Operation {
    Generate,
    ListModels,
    FetchModelInfo,
    FetchAvailableModels,
    PullModel,
}

/// The name under which a caller invokes each operation.
pub open spec fn operation_name(op: Operation) -> Seq<char> {
    match op {
        Operation::Generate => "generate"@,
        Operation::ListModels => "listModels"@,
        Operation::FetchModelInfo => "fetchModelInfo"@,
        Operation::FetchAvailableModels => "fetchAvailableModels"@,
        Operation::PullModel => "pullModel"@,
    }
}

/// The operation registered under `name`, if any.
pub open spec fn named_operation(name: Seq<char>) -> Option<Operation> {
    if name == "generate"@ {
        Some(Operation::Generate)
    } else if name == "listModels"@ {
        Some(Operation::ListModels)
    } else if name == "fetchModelInfo"@ {
        Some(Operation::FetchModelInfo)
    } else if name == "fetchAvailableModels"@ {
        Some(Operation::FetchAvailableModels)
    } else if name == "pullModel"@ {
        Some(Operation::PullModel)
    } else {
        None
    }
}

/// Whether `op` takes a model name.
pub open spec fn needs_model(op: Operation) -> bool {
    op is Generate || op is FetchModelInfo || op is PullModel
}

/// Whether `op` takes a prompt.
pub open spec fn needs_prompt(op: Operation) -> bool {
    op is Generate
}

/// Why an invocation was refused before any backend was contacted.
#[derive(Clone, Copy, Debug, PartialEq, Eq, Structural)]
pub enum DispatchError {
    /// No enabled operation has the given name.
    UnknownOperation,
    /// The operation exists but an argument it needs is absent.
    MissingArgument,
}

/// The text by which a caller recognises each dispatch error.
pub open spec fn dispatch_error_text(e: DispatchError) -> Seq<char> {
    match e {
        DispatchError::UnknownOperation => "unknown operation"@,
        DispatchError::MissingArgument => "missing argument"@,
    }
}

impl DispatchError {
    pub fn as_str(&self) -> (r: &'static str)
        ensures
            r@ == dispatch_error_text(*self),
    {
        match self {
            DispatchError::UnknownOperation => "unknown operation",
            DispatchError::MissingArgument => "missing argument",
        }
    }
}

/// The argument bundle of an invocation.
#[derive(Clone, Debug, PartialEq, Eq)]
pub struct Arguments {
    pub model: Option<String>,
    pub prompt: Option<String>,
}

/// A resolved invocation: one operation with the arguments it takes.
#[derive(Clone, Debug, PartialEq, Eq)]
pub enum Command {
    Generate { model: String, prompt: String },
    ListModels,
    FetchModelInfo { model: String },
    FetchAvailableModels,
    PullModel { model: String },
}

impl Command {
    pub open spec fn operation(self) -> Operation {
        match self {
            Command::Generate { .. } => Operation::Generate,
            Command::ListModels => Operation::ListModels,
            Command::FetchModelInfo { .. } => Operation::FetchModelInfo,
            Command::FetchAvailableModels => Operation::FetchAvailableModels,
            Command::PullModel { .. } => Operation::PullModel,
        }
    }

    /// Whether the command carries exactly the arguments of `args` that its
    /// operation takes.
    pub open spec fn carries(self, args: Arguments) -> bool {
        match self {
            Command::Generate { model, prompt } => args.model == Some(model) && args.prompt == Some(
                prompt,
            ),
            Command::FetchModelInfo { model } => args.model == Some(model),
            Command::PullModel { model } => args.model == Some(model),
            _ => true,
        }
    }
}

/// How an invocation of `name` resolves, given whether the model operations are
/// enabled and which arguments are present.
pub open spec fn resolution(enabled: bool, name: Seq<char>, has_model: bool, has_prompt: bool) -> Result<
    Operation,
    DispatchError,
> {
    match named_operation(name) {
        None => Err(DispatchError::UnknownOperation),
        Some(op) => if !enabled {
            Err(DispatchError::UnknownOperation)
        } else if (needs_model(op) && !has_model) || (needs_prompt(op) && !has_prompt) {
            Err(DispatchError::MissingArgument)
        } else {
            Ok(op)
        },
    }
}

/// Every supported operation, invoked by its name with the arguments it takes,
/// resolves to that operation while the model operations are enabled.
pub proof fn lemma_supported_operation_resolves(op: Operation, has_model: bool, has_prompt: bool)
    requires
        needs_model(op) ==> has_model,
        needs_prompt(op) ==> has_prompt,
    ensures
        named_operation(operation_name(op)) == Some(op),
        resolution(true, operation_name(op), has_model, has_prompt) == Ok::<
            Operation,
            DispatchError,
        >(op),
{
    reveal_strlit("generate");
    reveal_strlit("listModels");
    reveal_strlit("fetchModelInfo");
    reveal_strlit("fetchAvailableModels");
    reveal_strlit("pullModel");
    assert("generate"@.len() == 8);
    assert("listModels"@.len() == 10);
    assert("fetchModelInfo"@.len() == 14);
    assert("fetchAvailableModels"@.len() == 20);
    assert("pullModel"@.len() == 9);
}

/// A name that no enabled operation has is refused as unknown, whatever the
/// arguments; a refused invocation yields no command to run.
pub proof fn lemma_unregistered_name_rejected(
    enabled: bool,
    name: Seq<char>,
    has_model: bool,
    has_prompt: bool,
)
    requires
        !enabled || named_operation(name) is None,
    ensures
        resolution(enabled, name, has_model, has_prompt) == Err::<Operation, DispatchError>(
            DispatchError::UnknownOperation,
        ),
{
}

fn same_text(a: &str, b: &str) -> (r: bool)
    ensures
        r == (a@ == b@),
{
    let n = a.unicode_len();
    let m = b.unicode_len();
    if n != m {
        return false;
    }
    let mut i: usize = 0;
    while i < n
        invariant
            n == a@.len(),
            m == b@.len(),
            n == m,
            i <= n,
            forall|j: int| 0 <= j < i ==> a@[j] == b@[j],
        decreases n - i,
    {
        if a.get_char(i) != b.get_char(i) {
            return false;
        }
        i += 1;
    }
    assert(a@ =~= b@);
    true
}

/// Looks up the operation registered under `name`.
pub fn operation_named(name: &str) -> (r: Option<Operation>)
    ensures
        r == named_operation(name@),
{
    if same_text(name, "generate") {
        Some(Operation::Generate)
    } else if same_text(name, "listModels") {
        Some(Operation::ListModels)
    } else if same_text(name, "fetchModelInfo") {
        Some(Operation::FetchModelInfo)
    } else if same_text(name, "fetchAvailableModels") {
        Some(Operation::FetchAvailableModels)
    } else if same_text(name, "pullModel") {
        Some(Operation::PullModel)
    } else {
        None
    }
}

/// The set of operations exposed to callers, fixed when the host starts.
#[derive(Clone, Copy, Debug, PartialEq, Eq, Structural)]
pub struct Registry {
    /// Whether the model operations are registered at all.
    pub models_enabled: bool,
}

impl Registry {
    pub fn new(models_enabled: bool) -> (r: Registry)
        ensures
            r.models_enabled == models_enabled,
    {
        Registry { models_enabled }
    }

    /// Resolves an invocation of `name` with `args` to the command to run, or
    /// refuses it before any backend is contacted.
    pub fn resolve(&self, name: &str, args: Arguments) -> (r: Result<Command, DispatchError>)
        ensures
            match r {
                Ok(c) => {
                    &&& resolution(self.models_enabled, name@, args.model is Some, args.prompt is Some)
                        == Ok::<Operation, DispatchError>(c.operation())
                    &&& c.carries(args)
                },
                Err(e) => resolution(self.models_enabled, name@, args.model is Some, args.prompt is Some)
                    == Err::<Operation, DispatchError>(e),
            },
    {
        let op = match operation_named(name) {
            None => return Err(DispatchError::UnknownOperation),
            Some(op) => op,
        };
        if !self.models_enabled {
            return Err(DispatchError::UnknownOperation);
        }
        match op {
            Operation::Generate => match (args.model, args.prompt) {
                (Some(model), Some(prompt)) => Ok(Command::Generate { model, prompt }),
                _ => Err(DispatchError::MissingArgument),
            },
            Operation::ListModels => Ok(Command::ListModels),
            Operation::FetchModelInfo => match args.model {
                Some(model) => Ok(Command::FetchModelInfo { model }),
                None => Err(DispatchError::MissingArgument),
            },
            Operation::FetchAvailableModels => Ok(Command::FetchAvailableModels),
            Operation::PullModel => match args.model {
                Some(model) => Ok(Command::PullModel { model }),
                None => Err(DispatchError::MissingArgument),
            },
        }
    }
}

} // verus!
