use vstd::prelude::*;
use vstd::string::*;
use crate::errors::{CompilerError, IntegerError};
use crate::integer::{enforce_arith_s, from_param_s};
use crate::r1cs::{ConstraintKind, ConstraintSystem, CsModel};
use crate::types::{InputModel, InputModelV, InputValue};
use crate::value::{cres_view, val_wf, views_of, BinaryOp, ConstrainedValue, Expression, Function,
    FunctionV, ValueV};

verus! {

/// One resolved top-level definition of a program: its identifier and the
/// value it resolves to.
pub struct Definition {
    pub name: String,
    pub value: ConstrainedValue,
}

/// The mathematical model of a definition.
pub ghost struct DefinitionV {
    pub name: Seq<char>,
    pub value: ValueV,
}

impl View for Definition {
    type V = DefinitionV;

    open spec fn view(&self) -> DefinitionV {
        DefinitionV { name: self.name@, value: self.value@ }
    }
}

/// A parsed, resolved program: its name and its top-level definitions, in
/// source order.
pub struct Program {
    pub name: String,
    pub definitions: Vec<Definition>,
}

/// The mathematical model of a program.
pub ghost struct ProgramV {
    pub name: Seq<char>,
    pub definitions: Seq<DefinitionV>,
}

impl View for Program {
    type V = ProgramV;

    open spec fn view(&self) -> ProgramV {
        ProgramV {
            name: self.name@,
            definitions: self.definitions@.map_values(|d: Definition| d@),
        }
    }
}

impl Program {
    /// The program's name.
    pub fn get_name(&self) -> (r: String)
        ensures
            r@ == self@.name,
    {
        self.name.clone()
    }
}

/// A scope-qualified name: the outer scope joined to the identifier.
pub open spec fn scoped(outer: Seq<char>, inner: Seq<char>) -> Seq<char> {
    outer + seq!['_'] + inner
}

/// Joins a scope and an identifier into one qualified name.
pub fn new_scope(outer: String, inner: String) -> (r: String)
    ensures
        r@ == scoped(outer@, inner@),
{
    let r = outer.concat("_").concat(inner.as_str());
    proof {
        reveal_strlit("_");
        assert("_"@ =~= seq!['_']);
    }
    r
}

/// First-match lookup in the name table, in insertion order.
pub open spec fn lookup_s(t: Seq<(Seq<char>, ValueV)>, key: Seq<char>) -> Option<ValueV>
    decreases t.len(),
{
    if t.len() == 0 {
        None
    } else if t[0].0 == key {
        Some(t[0].1)
    } else {
        lookup_s(t.drop_first(), key)
    }
}

/// Skipping entries whose keys differ from `key` leaves the lookup unchanged.
proof fn lemma_lookup_skip(t: Seq<(Seq<char>, ValueV)>, key: Seq<char>, i: int)
    requires
        0 <= i <= t.len(),
        forall|j: int| 0 <= j < i ==> t[j].0 != key,
    ensures
        lookup_s(t, key) == lookup_s(t.subrange(i, t.len() as int), key),
    decreases i,
{
    if i == 0 {
        assert(t.subrange(0, t.len() as int) =~= t);
    } else {
        lemma_lookup_skip(t.drop_first(), key, i - 1);
        assert(t.drop_first().subrange(i - 1, t.drop_first().len() as int)
            =~= t.subrange(i, t.len() as int));
    }
}

/// The table that resolving a program's definitions produces: each
/// definition keyed by its scope-qualified name, in source order.
pub open spec fn resolved_entries(p: ProgramV) -> Seq<(Seq<char>, ValueV)> {
    p.definitions.map_values(|d: DefinitionV| (scoped(p.name, d.name), d.value))
}

/// Process-scoped state for one generation: the table mapping scope-qualified
/// names to the values their definitions resolved to, in insertion order.
/// Populated once, before `main` is looked up; nothing is ever removed.
pub struct ConstrainedProgram {
    pub table: Vec<(String, ConstrainedValue)>,
}

impl View for ConstrainedProgram {
    type V = Seq<(Seq<char>, ValueV)>;

    open spec fn view(&self) -> Seq<(Seq<char>, ValueV)> {
        self.table@.map_values(|p: (String, ConstrainedValue)| (p.0@, p.1@))
    }
}

impl ConstrainedProgram {
    /// An empty name table.
    pub fn new() -> (r: ConstrainedProgram)
        ensures
            r@ == Seq::<(Seq<char>, ValueV)>::empty(),
    {
        let r = ConstrainedProgram { table: Vec::new() };
        proof {
            assert(r@ =~= Seq::<(Seq<char>, ValueV)>::empty());
        }
        r
    }

    /// Appends one named value to the table.
    pub fn store(&mut self, name: String, value: ConstrainedValue)
        ensures
            final(self)@ == old(self)@.push((name@, value@)),
    {
        let ghost before = self@;
        let ghost entry = (name@, value@);
        self.table.push((name, value));
        proof {
            assert(self@ =~= before.push(entry));
        }
    }

    /// Looks a qualified name up: the first entry stored under it, if any.
    pub fn get(&self, name: &String) -> (r: Option<&ConstrainedValue>)
        ensures
            match r {
                Some(v) => lookup_s(self@, name@) == Some(v@),
                None => lookup_s(self@, name@) is None,
            },
    {
        let mut i: usize = 0;
        while i < self.table.len()
            invariant
                i <= self.table.len(),
                forall|j: int| 0 <= j < i ==> self@[j].0 != name@,
            decreases self.table.len() - i,
        {
            let entry = &self.table[i];
            if entry.0 == *name {
                proof {
                    lemma_lookup_skip(self@, name@, i as int);
                }
                return Some(&entry.1);
            }
            i = i + 1;
        }
        proof {
            lemma_lookup_skip(self@, name@, self.table.len() as int);
        }
        None
    }

    /// Resolves every top-level definition of the program into the table,
    /// each keyed by its scope-qualified name, in source order.
    pub fn resolve_definitions(&mut self, program: Program)
        ensures
            final(self)@ == old(self)@ + resolved_entries(program@),
    {
        let ghost p = program@;
        let mut i: usize = 0;
        while i < program.definitions.len()
            invariant
                i <= program.definitions.len(),
                p == program@,
                self@ =~= old(self)@ + resolved_entries(p).take(i as int),
            decreases program.definitions.len() - i,
        {
            let d = &program.definitions[i];
            let qualified = new_scope(program.name.clone(), d.name.clone());
            let value = d.value.clone_value();
            self.store(qualified, value);
            proof {
                assert(resolved_entries(p).take(i + 1 as int)
                    =~= resolved_entries(p).take(i as int).push(resolved_entries(p)[i as int]));
                assert(self@ =~= old(self)@ + resolved_entries(p).take(i + 1 as int));
            }
            i = i + 1;
        }
        proof {
            assert(resolved_entries(p).take(program.definitions.len() as int)
                =~= resolved_entries(p));
        }
    }
}

/// Applying one arithmetic operator to two evaluated operands: both must be
/// integers, which go to the width-dispatched subsystem; any other kind is a
/// kind mismatch.
pub open spec fn apply_binop_s(kind: ConstraintKind, lv: ValueV, rv: ValueV, cs: CsModel)
    -> (Result<ValueV, CompilerError>, CsModel) {
    match (lv, rv) {
        (ValueV::Integer(a), ValueV::Integer(b)) => {
            let (res, cs2) = enforce_arith_s(kind, a, b, cs);
            match res {
                Ok(v) => (Ok(v), cs2),
                Err(e) => (Err(CompilerError::IntegerError(e)), cs2),
            }
        },
        _ => (Err(CompilerError::ExpectedInteger), cs),
    }
}

/// What enforcing a function body does: parameters are read positionally
/// from the bound arguments; each arithmetic node enforces its operator over
/// its evaluated operands, left first, threading the constraint system.
pub open spec fn eval_expr_s(args: Seq<ValueV>, e: Expression, cs: CsModel)
    -> (Result<ValueV, CompilerError>, CsModel)
    decreases e,
{
    match e {
        Expression::Parameter(i) => if (i as int) < args.len() {
            (Ok(args[i as int]), cs)
        } else {
            (Err(CompilerError::UndefinedParameter(i)), cs)
        },
        Expression::Binary(op, l, r) => {
            let (lres, cs1) = eval_expr_s(args, *l, cs);
            match lres {
                Err(err) => (Err(err), cs1),
                Ok(lv) => {
                    let (rres, cs2) = eval_expr_s(args, *r, cs1);
                    match rres {
                        Err(err) => (Err(err), cs2),
                        Ok(rv) => apply_binop_s(op.kind(), lv, rv, cs2),
                    }
                },
            }
        },
    }
}

/// Binding the declared parameters, in order: parameter `j` is allocated
/// from its declared model and the `j`-th supplied input; a missing input is
/// a free witness. The first failure stops the binding.
pub open spec fn bind_params_s(models: Seq<InputModelV>, values: Seq<Option<InputValue>>,
    k: int, cs: CsModel) -> (Result<Seq<ValueV>, IntegerError>, CsModel)
    recommends k <= models.len(),
    decreases k,
{
    if k <= 0 {
        (Ok(Seq::empty()), cs)
    } else {
        let (prev, cs1) = bind_params_s(models, values, k - 1, cs);
        match prev {
            Err(e) => (Err(e), cs1),
            Ok(args) => {
                let v = if k - 1 < values.len() {
                    values[k - 1]
                } else {
                    None
                };
                let (step, cs2) = from_param_s(models[k - 1], v, cs1);
                match step {
                    Err(e) => (Err(e), cs2),
                    Ok(val) => (Ok(args.push(val)), cs2),
                }
            },
        }
    }
}

/// Once the binding has failed, binding further parameters changes nothing.
proof fn lemma_bind_err(models: Seq<InputModelV>, values: Seq<Option<InputValue>>,
    j: int, k: int, cs: CsModel)
    requires
        0 <= j <= k,
        bind_params_s(models, values, j, cs).0 is Err,
    ensures
        bind_params_s(models, values, k, cs) == bind_params_s(models, values, j, cs),
    decreases k - j,
{
    if k > j {
        lemma_bind_err(models, values, j, k - 1, cs);
    }
}

/// What enforcing the `main` function does: bind the declared parameters,
/// then enforce the body over the bound arguments.
pub open spec fn enforce_main_s(f: FunctionV, params: Seq<Option<InputValue>>, cs: CsModel)
    -> (Result<ValueV, CompilerError>, CsModel) {
    let (bound, cs1) = bind_params_s(f.parameters, params, f.parameters.len() as int, cs);
    match bound {
        Err(e) => (Err(CompilerError::IntegerError(e)), cs1),
        Ok(args) => eval_expr_s(args, f.body, cs1),
    }
}

/// The key the driver looks `main` up under.
pub open spec fn main_key(p: ProgramV) -> Seq<char> {
    scoped(p.name, "main"@)
}

/// What constraint generation does: resolve the definitions into a table,
/// look `main` up under its scope-qualified name, require it to be a
/// function, and enforce it over the supplied inputs.
pub open spec fn generate_s(p: ProgramV, params: Seq<Option<InputValue>>, cs: CsModel)
    -> (Result<ValueV, CompilerError>, CsModel) {
    match lookup_s(resolved_entries(p), main_key(p)) {
        None => (Err(CompilerError::NoMain), cs),
        Some(v) => match v {
            ValueV::Function(f) => enforce_main_s(f, params, cs),
            _ => (Err(CompilerError::NoMainFunction), cs),
        },
    }
}

/// The wire headroom generation needs: room for the widest witness of every
/// declared parameter and of every arithmetic node of the body.
pub open spec fn gen_headroom(p: ProgramV, next: int) -> bool {
    match lookup_s(resolved_entries(p), main_key(p)) {
        Some(ValueV::Function(f)) =>
            next + 128 * (f.parameters.len() + f.body.weight()) <= usize::MAX,
        _ => true,
    }
}

impl ConstrainedProgram {
    /// Enforces one function-body expression over the bound arguments.
    pub fn enforce_expression(cs: &mut ConstraintSystem, args: &Vec<ConstrainedValue>,
        expr: &Expression) -> (r: Result<ConstrainedValue, CompilerError>)
        requires
            forall|j: int| 0 <= j < args@.len() ==> val_wf(views_of(args@)[j]),
            old(cs)@.next_wire + 128 * expr.weight() <= usize::MAX,
        ensures
            (cres_view(r), final(cs)@) == eval_expr_s(views_of(args@), *expr, old(cs)@),
            old(cs)@.next_wire <= final(cs)@.next_wire,
            final(cs)@.next_wire <= old(cs)@.next_wire + 128 * expr.weight(),
            r matches Ok(v) ==> val_wf(v@),
        decreases expr,
    {
        match expr {
            Expression::Parameter(i) => {
                if *i < args.len() {
                    Ok(args[*i].clone_value())
                } else {
                    Err(CompilerError::UndefinedParameter(*i))
                }
            },
            Expression::Binary(op, l, r) => {
                let lv = match Self::enforce_expression(cs, args, l) {
                    Ok(v) => v,
                    Err(e) => {
                        return Err(e);
                    },
                };
                let rv = match Self::enforce_expression(cs, args, r) {
                    Ok(v) => v,
                    Err(e) => {
                        return Err(e);
                    },
                };
                match (lv, rv) {
                    (ConstrainedValue::Integer(a), ConstrainedValue::Integer(b)) => {
                        match Self::enforce_integer_arith(cs, op.kind_exec(), a, b) {
                            Ok(v) => Ok(v),
                            Err(e) => Err(CompilerError::IntegerError(e)),
                        }
                    },
                    _ => Err(CompilerError::ExpectedInteger),
                }
            },
        }
    }

    /// Enforces the `main` function: binds each declared parameter against
    /// the positional input (missing inputs become free witnesses), then
    /// enforces the body over the bound arguments.
    pub fn enforce_main_function(&mut self, cs: &mut ConstraintSystem, function: Function,
        parameters: Vec<Option<InputValue>>) -> (r: Result<ConstrainedValue, CompilerError>)
        requires
            old(cs)@.next_wire
                + 128 * (function@.parameters.len() + function@.body.weight()) <= usize::MAX,
        ensures
            final(self)@ == old(self)@,
            (cres_view(r), final(cs)@) == enforce_main_s(function@, parameters@, old(cs)@),
            r matches Ok(v) ==> val_wf(v@),
    {
        let ghost f = function@;
        let ghost cs0 = old(cs)@;
        let n = function.parameters.len();
        let mut args: Vec<ConstrainedValue> = Vec::new();
        proof {
            assert(views_of(args@) =~= Seq::<ValueV>::empty());
        }
        let mut i: usize = 0;
        while i < n
            invariant
                i <= n,
                n == f.parameters.len(),
                f == function@,
                cs0 == old(cs)@,
                cs0.next_wire + 128 * (f.parameters.len() + f.body.weight()) <= usize::MAX,
                bind_params_s(f.parameters, parameters@, i as int, cs0)
                    == (Result::<Seq<ValueV>, IntegerError>::Ok(views_of(args@)), cs@),
                forall|j: int| 0 <= j < args@.len() ==> val_wf(views_of(args@)[j]),
                cs0.next_wire <= cs@.next_wire <= cs0.next_wire + 128 * i,
                self@ == old(self)@,
            decreases n - i,
        {
            let m = &function.parameters[i];
            let model = InputModel { identifier: m.identifier.clone(), ty: m.ty };
            let value: Option<InputValue> = if i < parameters.len() {
                parameters[i]
            } else {
                None
            };
            let ghost args_before = views_of(args@);
            proof {
                assert(model@ == f.parameters[i as int]);
            }
            match self.integer_from_parameter(cs, model, value) {
                Ok(v) => {
                    args.push(v);
                    proof {
                        assert(views_of(args@) =~= args_before.push(v@));
                    }
                },
                Err(e) => {
                    proof {
                        lemma_bind_err(f.parameters, parameters@, i + 1, n as int, cs0);
                    }
                    return Err(CompilerError::IntegerError(e));
                },
            }
            i = i + 1;
        }
        let res = Self::enforce_expression(cs, &args, &function.body);
        match res {
            Ok(v) => Ok(v),
            Err(e) => Err(e),
        }
    }
}

/// Turns a parsed program plus a positional list of optional inputs into one
/// output value, fully enforced in the constraint system: definitions are
/// resolved into a fresh table, `main` is looked up under its
/// scope-qualified name and must be a function, its parameters are bound,
/// and its body is enforced.
pub fn generate_constraints(cs: &mut ConstraintSystem, program: Program,
    parameters: Vec<Option<InputValue>>) -> (r: Result<ConstrainedValue, CompilerError>)
    requires
        gen_headroom(program@, old(cs)@.next_wire),
    ensures
        (cres_view(r), final(cs)@) == generate_s(program@, parameters@, old(cs)@),
        r matches Ok(v) ==> val_wf(v@),
{
    let ghost p = program@;
    let mut resolved_program = ConstrainedProgram::new();
    let program_name = program.get_name();
    let main_function_name = new_scope(program_name, "main".to_owned());
    resolved_program.resolve_definitions(program);
    proof {
        assert(resolved_program@ =~= resolved_entries(p));
    }
    let main = resolved_program.get(&main_function_name);
    let function = match main {
        None => {
            return Err(CompilerError::NoMain);
        },
        Some(ConstrainedValue::Function(f)) => f.clone_fn(),
        Some(_) => {
            return Err(CompilerError::NoMainFunction);
        },
    };
    resolved_program.enforce_main_function(cs, function, parameters)
}

} // verus!
