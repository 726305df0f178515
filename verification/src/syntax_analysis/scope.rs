//! Lexical scopes: what each block declares, and how a name is resolved
//! through the chain of blocks that enclose its use.
//!
//! The chain is a sequence of scopes, outermost first. A name is looked up in
//! the innermost scope first and then outwards; a declaration looks at the
//! innermost scope only, so an inner block may shadow an outer name but a
//! block may not declare a name twice.

use vstd::prelude::*;
use crate::error::JuvinilErrorView;
use crate::text::{str_equal, strings_view};

verus! {

/// A declared variable.
#[derive(Debug)]
pub struct JvVariable {
    /// The type it was declared with.
    pub var_type: String,
    /// Its name.
    pub var_name: String,
    /// Whether a value has been assigned to it.
    pub assigned: bool,
}

/// A declared function.
#[derive(Debug)]
pub struct JvFunction {
    /// The type it returns.
    pub return_type: String,
    /// Its name.
    pub func_name: String,
    /// The types of its parameters, in order.
    pub params: Vec<String>,
}

/// The declarations of one block.
#[derive(Debug)]
pub struct Scope {
    pub variables: Vec<JvVariable>,
    pub functions: Vec<JvFunction>,
}

/// What a [`JvVariable`] stands for.
pub struct VariableView {
    pub var_type: Seq<char>,
    pub var_name: Seq<char>,
    pub assigned: bool,
}

/// What a [`JvFunction`] stands for.
pub struct FunctionView {
    pub return_type: Seq<char>,
    pub func_name: Seq<char>,
    pub params: Seq<Seq<char>>,
}

/// What a [`Scope`] stands for.
pub struct ScopeView {
    pub variables: Seq<VariableView>,
    pub functions: Seq<FunctionView>,
}

impl View for JvVariable {
    type V = VariableView;

    open spec fn view(&self) -> VariableView {
        VariableView { var_type: self.var_type@, var_name: self.var_name@, assigned: self.assigned }
    }
}

impl View for JvFunction {
    type V = FunctionView;

    open spec fn view(&self) -> FunctionView {
        FunctionView {
            return_type: self.return_type@,
            func_name: self.func_name@,
            params: strings_view(self.params@),
        }
    }
}

impl View for Scope {
    type V = ScopeView;

    open spec fn view(&self) -> ScopeView {
        ScopeView {
            variables: Seq::new(self.variables@.len(), |i: int| self.variables@[i]@),
            functions: Seq::new(self.functions@.len(), |i: int| self.functions@[i]@),
        }
    }
}

/// The scopes that a chain of [`Scope`] values stands for.
pub open spec fn scopes_view(scopes: Seq<Scope>) -> Seq<ScopeView> {
    Seq::new(scopes.len(), |i: int| scopes[i]@)
}

impl Clone for JvVariable {
    fn clone(&self) -> (r: Self)
        ensures
            r@ == self@,
    {
        JvVariable {
            var_type: self.var_type.clone(),
            var_name: self.var_name.clone(),
            assigned: self.assigned,
        }
    }
}

impl Clone for JvFunction {
    fn clone(&self) -> (r: Self)
        ensures
            r@ == self@,
    {
        let mut params: Vec<String> = Vec::new();
        let mut i: usize = 0;
        while i < self.params.len()
            invariant
                i <= self.params@.len(),
                params@.len() == i,
                forall|k: int| 0 <= k < i ==> params@[k]@ == self.params@[k]@,
            decreases self.params@.len() - i,
        {
            params.push(self.params[i].clone());
            i = i + 1;
        }
        assert(strings_view(params@) =~= strings_view(self.params@));
        JvFunction {
            return_type: self.return_type.clone(),
            func_name: self.func_name.clone(),
            params,
        }
    }
}

/// The empty scope.
pub open spec fn empty_scope() -> ScopeView {
    ScopeView { variables: Seq::empty(), functions: Seq::empty() }
}

/// The place of the first variable called `name` among `variables[from..]`.
pub open spec fn variable_from(variables: Seq<VariableView>, name: Seq<char>, from: int) -> Option<
    int,
>
    decreases variables.len() - from,
{
    if from >= variables.len() {
        None
    } else if variables[from].var_name == name {
        Some(from)
    } else {
        variable_from(variables, name, from + 1)
    }
}

/// The place of the first function called `name` among `functions[from..]`.
pub open spec fn function_from(functions: Seq<FunctionView>, name: Seq<char>, from: int) -> Option<
    int,
>
    decreases functions.len() - from,
{
    if from >= functions.len() {
        None
    } else if functions[from].func_name == name {
        Some(from)
    } else {
        function_from(functions, name, from + 1)
    }
}

impl ScopeView {
    /// The place of the variable `name` in this scope.
    pub open spec fn variable_index(self, name: Seq<char>) -> Option<int> {
        variable_from(self.variables, name, 0)
    }

    /// The place of the function `name` in this scope.
    pub open spec fn function_index(self, name: Seq<char>) -> Option<int> {
        function_from(self.functions, name, 0)
    }

    /// This scope with one more variable, not yet assigned.
    pub open spec fn with_variable(self, var_type: Seq<char>, var_name: Seq<char>) -> ScopeView {
        ScopeView {
            variables: self.variables.push(VariableView { var_type, var_name, assigned: false }),
            ..self
        }
    }

    /// This scope with one more variable that is assigned from the start, as
    /// a parameter is.
    pub open spec fn with_parameter(self, var_type: Seq<char>, var_name: Seq<char>) -> ScopeView {
        ScopeView {
            variables: self.variables.push(VariableView { var_type, var_name, assigned: true }),
            ..self
        }
    }

    /// This scope with one more function.
    pub open spec fn with_function(self, function: FunctionView) -> ScopeView {
        ScopeView { functions: self.functions.push(function), ..self }
    }

    /// This scope with the variable at `index` marked as assigned.
    pub open spec fn with_assigned(self, index: int) -> ScopeView {
        ScopeView {
            variables: self.variables.update(
                index,
                VariableView { assigned: true, ..self.variables[index] },
            ),
            ..self
        }
    }
}

/// Where the variable `name` is found when the innermost `depth` scopes of
/// the chain are searched from the inside out: the scope and the place in it.
pub open spec fn variable_below(scopes: Seq<ScopeView>, name: Seq<char>, depth: int) -> Option<
    (int, int),
>
    decreases depth,
{
    if depth <= 0 {
        None
    } else {
        match scopes[depth - 1].variable_index(name) {
            Some(index) => Some((depth - 1, index)),
            None => variable_below(scopes, name, depth - 1),
        }
    }
}

/// Where the function `name` is found when the innermost `depth` scopes of
/// the chain are searched from the inside out.
pub open spec fn function_below(scopes: Seq<ScopeView>, name: Seq<char>, depth: int) -> Option<
    (int, int),
>
    decreases depth,
{
    if depth <= 0 {
        None
    } else {
        match scopes[depth - 1].function_index(name) {
            Some(index) => Some((depth - 1, index)),
            None => function_below(scopes, name, depth - 1),
        }
    }
}

/// The chain with a new, empty innermost scope.
pub open spec fn push_scope(scopes: Seq<ScopeView>) -> Seq<ScopeView> {
    scopes.push(empty_scope())
}

/// The chain without its innermost scope.
pub open spec fn pop_scope(scopes: Seq<ScopeView>) -> Seq<ScopeView> {
    scopes.drop_last()
}

/// Resolves the variable `name`: the innermost scope that declares it, and
/// its place there.
pub open spec fn lookup_variable(scopes: Seq<ScopeView>, name: Seq<char>) -> Option<(int, int)> {
    variable_below(scopes, name, scopes.len() as int)
}

/// Resolves the function `name`.
pub open spec fn lookup_function(scopes: Seq<ScopeView>, name: Seq<char>) -> Option<(int, int)> {
    function_below(scopes, name, scopes.len() as int)
}

/// Declares the variable `name` in the innermost scope, which must not hold
/// that name yet. `line` is the line that a failure is reported on.
pub open spec fn declare_variable(
    scopes: Seq<ScopeView>,
    var_type: Seq<char>,
    name: Seq<char>,
    line: usize,
) -> Result<Seq<ScopeView>, JuvinilErrorView> {
    if scopes.last().variable_index(name) is Some {
        Err(JuvinilErrorView::DuplicateVariable(name, line))
    } else {
        Ok(scopes.update(scopes.len() - 1, scopes.last().with_variable(var_type, name)))
    }
}

/// Declares the parameter `name` in the innermost scope, which must not hold
/// that name yet. A parameter is assigned from the start.
pub open spec fn declare_parameter(
    scopes: Seq<ScopeView>,
    var_type: Seq<char>,
    name: Seq<char>,
    line: usize,
) -> Result<Seq<ScopeView>, JuvinilErrorView> {
    if scopes.last().variable_index(name) is Some {
        Err(JuvinilErrorView::DuplicateVariable(name, line))
    } else {
        Ok(scopes.update(scopes.len() - 1, scopes.last().with_parameter(var_type, name)))
    }
}

/// Marks the variable that `name` resolves to as assigned.
pub open spec fn assign(scopes: Seq<ScopeView>, name: Seq<char>, line: usize) -> Result<
    Seq<ScopeView>,
    JuvinilErrorView,
> {
    match lookup_variable(scopes, name) {
        Some((depth, index)) => Ok(scopes.update(depth, scopes[depth].with_assigned(index))),
        None => Err(JuvinilErrorView::UndeclaredVariable(name, line)),
    }
}

/// Whether `name` resolves to a variable that has been assigned.
pub open spec fn is_assigned(scopes: Seq<ScopeView>, name: Seq<char>) -> bool {
    match lookup_variable(scopes, name) {
        Some((depth, index)) => scopes[depth].variables[index].assigned,
        None => false,
    }
}

/// Reading the variable `name` is an error unless it resolves to a variable
/// that has been assigned.
pub open spec fn assert_assigned(scopes: Seq<ScopeView>, name: Seq<char>, line: usize) -> Result<
    (),
    JuvinilErrorView,
> {
    if is_assigned(scopes, name) {
        Ok(())
    } else {
        Err(JuvinilErrorView::UnassignedVariable(name, line))
    }
}

impl Scope {
    /// A scope that declares nothing.
    pub fn new() -> (scope: Self)
        ensures
            scope@ == empty_scope(),
    {
        let scope = Scope { variables: Vec::new(), functions: Vec::new() };
        assert(scope@.variables =~= Seq::empty());
        assert(scope@.functions =~= Seq::empty());
        scope
    }

    /// The place of the variable `name` in this scope.
    pub fn find_variable(&self, name: &str) -> (found: Option<usize>)
        ensures
            match found {
                Some(index) => self@.variable_index(name@) == Some(index as int)
                    && index < self.variables@.len(),
                None => self@.variable_index(name@) is None,
            },
    {
        let mut i: usize = 0;
        while i < self.variables.len()
            invariant
                i <= self.variables@.len(),
                self@.variable_index(name@) == variable_from(self@.variables, name@, i as int),
            decreases self.variables@.len() - i,
        {
            if str_equal(self.variables[i].var_name.as_str(), name) {
                return Some(i);
            }
            i = i + 1;
        }
        None
    }

    /// The place of the function `name` in this scope.
    pub fn find_function(&self, name: &str) -> (found: Option<usize>)
        ensures
            match found {
                Some(index) => self@.function_index(name@) == Some(index as int)
                    && index < self.functions@.len(),
                None => self@.function_index(name@) is None,
            },
    {
        let mut i: usize = 0;
        while i < self.functions.len()
            invariant
                i <= self.functions@.len(),
                self@.function_index(name@) == function_from(self@.functions, name@, i as int),
            decreases self.functions@.len() - i,
        {
            if str_equal(self.functions[i].func_name.as_str(), name) {
                return Some(i);
            }
            i = i + 1;
        }
        None
    }

    /// Adds a variable that has not been assigned yet.
    pub fn add_variable(&mut self, var_type: String, var_name: String)
        ensures
            final(self)@ == old(self)@.with_variable(var_type@, var_name@),
    {
        self.variables.push(JvVariable { var_type, var_name, assigned: false });
        assert(self@.variables =~= old(self)@.with_variable(var_type@, var_name@).variables);
        assert(self@.functions =~= old(self)@.functions);
    }

    /// Adds a parameter: a variable that is assigned from the start.
    pub fn add_parameter(&mut self, var_type: String, var_name: String)
        ensures
            final(self)@ == old(self)@.with_parameter(var_type@, var_name@),
    {
        self.variables.push(JvVariable { var_type, var_name, assigned: true });
        assert(self@.variables =~= old(self)@.with_parameter(var_type@, var_name@).variables);
        assert(self@.functions =~= old(self)@.functions);
    }

    /// Adds a function.
    pub fn add_function(&mut self, function: JvFunction)
        ensures
            final(self)@ == old(self)@.with_function(function@),
    {
        self.functions.push(function);
        assert(self@.functions =~= old(self)@.with_function(function@).functions);
        assert(self@.variables =~= old(self)@.variables);
    }

    /// Marks the variable at `index` as assigned.
    pub(crate) fn set_assigned(&mut self, index: usize)
        requires
            index < old(self)@.variables.len(),
        ensures
            final(self)@ == old(self)@.with_assigned(index as int),
    {
        self.variables[index].assigned = true;
        assert(self@.variables =~= old(self)@.with_assigned(index as int).variables);
        assert(self@.functions =~= old(self)@.functions);
    }
}

} // verus!
