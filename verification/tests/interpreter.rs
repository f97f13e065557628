use weblab_interpreter::ast::{
    Argument, AssignOp, AssignTarget, BinaryOp, Callee, CatchClause, Decl, Element, Expr, ExprId,
    ForHead, ForInit, FunctionDef, Lit, MemberProp, ObjectPatProp, Pat, PatId, Program, Prop,
    PropName, Quasi, Stmt, StmtId, UnaryOp, UpdateOp, VarDeclarator,
};
use weblab_interpreter::environment::{Environments, Lookup};
use weblab_interpreter::error::{ErrorKind, EvalError};
use weblab_interpreter::host::{ArithOp, Capture, HostClass, HostRequest, Reply, Slot};
use weblab_interpreter::machine::{Action, Interpreter};
use weblab_interpreter::store::Store;
use weblab_interpreter::value::Value;

// ---------------------------------------------------------------------------
// A small host: objects are property lists, arrays are lists of values.
// ---------------------------------------------------------------------------

#[derive(Clone, Debug, PartialEq)]
enum Plain {
    Number(f64),
    Bool(bool),
    Text(String),
    Null,
    Undefined,
    Object(u64),
    Native(u64),
    Closure(usize),
}

fn plain(value: &Value) -> Plain {
    match value {
        Value::Number(bits) => Plain::Number(f64::from_bits(*bits)),
        Value::Bool(b) => Plain::Bool(*b),
        Value::String(s) => Plain::Text(s.clone()),
        Value::Null => Plain::Null,
        Value::Undefined => Plain::Undefined,
        Value::Object(h) => Plain::Object(*h),
        Value::JsFunction(h) => Plain::Native(*h),
        Value::Function(id) => Plain::Closure(*id),
        Value::Symbol(h) => Plain::Object(*h),
        Value::BigInt(h) => Plain::Object(*h),
    }
}

fn copy(value: &Value) -> Value {
    value.clone()
}

enum Kind {
    Object,
    Array(Vec<Value>),
    Iterable(Vec<Value>),
    Iterator(Vec<Value>, usize),
    Error(String),
    Promise(Value),
    Compiled { params: Vec<String>, bound: usize, body: String },
    Recorder,
}

struct Entry {
    kind: Kind,
    props: Vec<(String, Value)>,
    prototype: Option<u64>,
}

struct Host {
    table: Vec<Entry>,
    recorded: Vec<Vec<Plain>>,
    receivers: Vec<Plain>,
    requests: Vec<String>,
    parents: Vec<Option<Plain>>,
}

fn key_text(key: &Value) -> String {
    match key {
        Value::String(s) => s.clone(),
        Value::Number(bits) => format!("{}", f64::from_bits(*bits)),
        other => format!("{:?}", plain(other)),
    }
}

impl Host {
    fn new() -> Host {
        Host {
            table: Vec::new(),
            recorded: Vec::new(),
            receivers: Vec::new(),
            requests: Vec::new(),
            parents: Vec::new(),
        }
    }

    fn add(&mut self, kind: Kind) -> u64 {
        self.table.push(Entry { kind, props: Vec::new(), prototype: None });
        (self.table.len() - 1) as u64
    }

    fn object(&mut self) -> Value {
        Value::Object(self.add(Kind::Object))
    }

    fn array(&mut self, items: Vec<Value>) -> Value {
        Value::Object(self.add(Kind::Array(items)))
    }

    fn recorder(&mut self) -> Value {
        Value::JsFunction(self.add(Kind::Recorder))
    }

    fn handle(value: &Value) -> Option<usize> {
        match value {
            Value::Object(h) => Some(*h as usize),
            Value::JsFunction(h) => Some(*h as usize),
            _ => None,
        }
    }

    fn elements(&self, value: &Value) -> Option<Vec<Value>> {
        match Host::handle(value) {
            Some(h) => match &self.table[h].kind {
                Kind::Array(items) => Some(items.iter().map(copy).collect()),
                _ => None,
            },
            None => None,
        }
    }

    fn get(&self, object: &Value, key: &Value) -> Value {
        let h = match Host::handle(object) {
            Some(h) => h,
            None => return Value::Undefined,
        };
        let name = key_text(key);
        if let Kind::Array(items) = &self.table[h].kind {
            if name == "length" {
                return Value::Number((items.len() as f64).to_bits());
            }
            if let Ok(index) = name.parse::<usize>() {
                return items.get(index).map(copy).unwrap_or(Value::Undefined);
            }
        }
        if let Kind::Error(message) = &self.table[h].kind {
            if name == "message" {
                return Value::String(message.clone());
            }
        }
        for (k, v) in self.table[h].props.iter() {
            if *k == name {
                return v.clone();
            }
        }
        match self.table[h].prototype {
            Some(parent) => self.get(&Value::Object(parent), key),
            None => Value::Undefined,
        }
    }

    fn set(&mut self, object: &Value, key: &Value, value: Value) {
        let h = Host::handle(object).expect("not an object");
        let name = key_text(key);
        for entry in self.table[h].props.iter_mut() {
            if entry.0 == name {
                entry.1 = value;
                return;
            }
        }
        self.table[h].props.push((name, value));
    }

    fn text_of(&self, value: &Value) -> String {
        match value {
            Value::Number(bits) => format!("{}", f64::from_bits(*bits)),
            Value::Bool(b) => format!("{}", b),
            Value::String(s) => s.clone(),
            Value::Null => String::from("null"),
            Value::Undefined => String::from("undefined"),
            other => match Host::handle(other) {
                Some(h) => match &self.table[h].kind {
                    Kind::Error(message) => format!("Error: {}", message),
                    _ => String::from("[object Object]"),
                },
                None => String::from("[function]"),
            },
        }
    }

    fn perform(&mut self, request: HostRequest) -> Reply {
        match request {
            HostRequest::Arith { op, left, right } => {
                self.requests.push(String::from("Arith"));
                let a = f64::from_bits(left);
                let b = f64::from_bits(right);
                let r = match op {
                    ArithOp::Add => a + b,
                    ArithOp::Sub => a - b,
                    ArithOp::Mul => a * b,
                    ArithOp::Div => a / b,
                    ArithOp::Mod => a % b,
                    ArithOp::Exp => a.powf(b),
                    ArithOp::LShift => ((a as i64).wrapping_shl((b as i64) as u32)) as f64,
                    ArithOp::RShift => ((a as i64).wrapping_shr((b as i64) as u32)) as f64,
                    ArithOp::ZeroFillRShift => ((a as u64).wrapping_shr((b as i64) as u32)) as f64,
                    ArithOp::BitAnd => ((a as i64) & (b as i64)) as f64,
                    ArithOp::BitOr => ((a as i64) | (b as i64)) as f64,
                    ArithOp::BitXor => ((a as i64) ^ (b as i64)) as f64,
                };
                Reply::Value(Value::Number(r.to_bits()))
            }
            HostRequest::ParseNumber(text) => match text.parse::<f64>() {
                Ok(x) => Reply::Value(Value::Number(x.to_bits())),
                Err(_) => Reply::Nothing,
            },
            HostRequest::ToNumber(value) => {
                let x = match &value {
                    Value::String(s) => s.trim().parse::<f64>().unwrap_or(f64::NAN),
                    _ => f64::NAN,
                };
                Reply::Value(Value::Number(x.to_bits()))
            }
            HostRequest::ToText(value) => Reply::Value(Value::String(self.text_of(&value))),
            HostRequest::Display(value) => Reply::Value(Value::String(self.text_of(&value))),
            HostRequest::Truthy(_) => Reply::Value(Value::Bool(true)),
            HostRequest::SameObject { left, right } => {
                Reply::Value(Value::Bool(Host::handle(&left) == Host::handle(&right)))
            }
            HostRequest::HasProperty { object, key } => {
                let h = Host::handle(&object).unwrap();
                let name = key_text(&key);
                Reply::Value(Value::Bool(self.table[h].props.iter().any(|(k, _)| *k == name)))
            }
            HostRequest::InstanceOf { value, class } => {
                let answer = match (Host::handle(&value), class) {
                    (Some(_), HostClass::Object) => true,
                    (Some(h), HostClass::Function) => {
                        matches!(self.table[h].kind, Kind::Compiled { .. } | Kind::Recorder)
                    }
                    _ => false,
                };
                Reply::Value(Value::Bool(answer))
            }
            HostRequest::CreateObject { prototype, properties } => {
                let h = self.add(Kind::Object);
                self.table[h as usize].prototype =
                    prototype.as_ref().and_then(|p| Host::handle(p)).map(|p| p as u64);
                for property in properties {
                    let name = key_text(&property.key);
                    let flags = property.descriptor.flags;
                    let (kind, value) = match property.descriptor.slot {
                        Slot::Value(v) => ("value", v),
                        Slot::Getter(v) => ("get", v),
                        Slot::Setter(v) => ("set", v),
                    };
                    self.requests.push(format!(
                        "define:{}:{}:{}{}{}",
                        name,
                        kind,
                        if flags.configurable { "c" } else { "-" },
                        if flags.enumerable { "e" } else { "-" },
                        if flags.writable { "w" } else { "-" }
                    ));
                    self.table[h as usize].props.retain(|(k, _)| *k != name);
                    self.table[h as usize].props.push((name, value));
                }
                Reply::Value(Value::Object(h))
            }
            HostRequest::CreateArray(items) => Reply::Value(self.array(items)),
            HostRequest::CreateRegExp { .. } => Reply::Value(self.object()),
            HostRequest::CreateError(message) => {
                Reply::Value(Value::Object(self.add(Kind::Error(message))))
            }
            HostRequest::CreatePromise(value) => {
                Reply::Value(Value::Object(self.add(Kind::Promise(value))))
            }
            HostRequest::CopyObject(value) => {
                let h = Host::handle(&value).unwrap();
                let props: Vec<(String, Value)> =
                    self.table[h].props.iter().map(|(k, v)| (k.clone(), v.clone())).collect();
                let c = self.add(Kind::Object);
                self.table[c as usize].props = props;
                Reply::Value(Value::Object(c))
            }
            HostRequest::GetProperty { object, key } => Reply::Value(self.get(&object, &key)),
            HostRequest::SetProperty { object, key, value } => {
                if Host::handle(&object).is_none() {
                    return Reply::Error(String::from("Reflect.set called on non-object"));
                }
                self.set(&object, &key, value);
                Reply::Value(Value::Bool(true))
            }
            HostRequest::DeleteProperty { object, key } => {
                let h = Host::handle(&object).unwrap();
                let name = key_text(&key);
                self.table[h].props.retain(|(k, _)| *k != name);
                Reply::Value(Value::Bool(true))
            }
            HostRequest::Keys(value) => {
                let h = Host::handle(&value).unwrap();
                Reply::Values(
                    self.table[h].props.iter().map(|(k, _)| Value::String(k.clone())).collect(),
                )
            }
            HostRequest::Entries(value) => {
                let h = Host::handle(&value).unwrap();
                Reply::Entries(
                    self.table[h]
                        .props
                        .iter()
                        .map(|(k, v)| (Value::String(k.clone()), v.clone()))
                        .collect(),
                )
            }
            HostRequest::Elements(value) => match self.elements(&value) {
                Some(items) => Reply::Values(items),
                None => Reply::Nothing,
            },
            HostRequest::Iterate(value) => match self.elements(&value) {
                Some(items) => Reply::Values(items),
                None => Reply::Error(String::from("The value is not iterable.")),
            },
            HostRequest::GetIterator(value) => {
                let items = match Host::handle(&value) {
                    Some(h) => match &self.table[h].kind {
                        Kind::Array(items) => Some(items.iter().map(copy).collect::<Vec<_>>()),
                        Kind::Iterable(items) => Some(items.iter().map(copy).collect::<Vec<_>>()),
                        _ => None,
                    },
                    None => None,
                };
                match items {
                    Some(items) => Reply::Value(Value::Object(self.add(Kind::Iterator(items, 0)))),
                    None => Reply::Error(String::from(
                        "Error: The object in the for ... of loop is not iterable.",
                    )),
                }
            }
            HostRequest::IteratorNext(value) => {
                let h = Host::handle(&value).unwrap();
                match &mut self.table[h].kind {
                    Kind::Iterator(items, position) => {
                        if *position < items.len() {
                            *position += 1;
                            Reply::Value(items[*position - 1].clone())
                        } else {
                            Reply::Nothing
                        }
                    }
                    _ => Reply::Error(String::from("not an iterator")),
                }
            }
            HostRequest::Apply { function, this, args } => {
                let h = Host::handle(&function).unwrap();
                match &self.table[h].kind {
                    Kind::Recorder => {
                        self.recorded.push(args.iter().map(plain).collect());
                        self.receivers.push(plain(&this));
                        Reply::Value(Value::Undefined)
                    }
                    _ => Reply::Error(String::from("cannot run native code here")),
                }
            }
            HostRequest::Construct { args, .. } => {
                self.requests.push(format!("construct:{}", args.len()));
                Reply::Value(self.object())
            }
            HostRequest::Compile { params, captures, body } => {
                let bound = captures.len();
                for capture in captures.iter() {
                    if let Capture::Global(name) = capture {
                        self.requests.push(format!("global:{}", name));
                    }
                }
                Reply::Value(Value::JsFunction(self.add(Kind::Compiled { params, bound, body })))
            }
            HostRequest::AssembleClass { constructor, parent, members, link } => {
                self.parents.push(parent.as_ref().map(plain));
                self.requests.push(format!(
                    "class:parent={}:link={}{}{}",
                    parent.is_some(),
                    if link.configurable { "c" } else { "-" },
                    if link.enumerable { "e" } else { "-" },
                    if link.writable { "w" } else { "-" }
                ));
                for member in members.iter() {
                    let flags = member.property.descriptor.flags;
                    self.requests.push(format!(
                        "member:{}:{}:{}{}{}",
                        key_text(&member.property.key),
                        if member.on_constructor { "static" } else { "prototype" },
                        if flags.configurable { "c" } else { "-" },
                        if flags.enumerable { "e" } else { "-" },
                        if flags.writable { "w" } else { "-" }
                    ));
                }
                for member in members {
                    if member.on_constructor {
                        let value = match member.property.descriptor.slot {
                            Slot::Value(v) => v,
                            Slot::Getter(v) => v,
                            Slot::Setter(v) => v,
                        };
                        self.set(&constructor, &member.property.key, value);
                    }
                }
                Reply::Value(constructor)
            }
            HostRequest::Await(value) => {
                let h = Host::handle(&value).unwrap();
                match &self.table[h].kind {
                    Kind::Promise(inner) => Reply::Value(inner.clone()),
                    _ => Reply::Value(Value::Undefined),
                }
            }
            HostRequest::Import(address) => {
                self.requests.push(format!("import:{}", address));
                let module = self.object();
                self.set(&module, &Value::String(String::from("answer")), Value::Number(42f64.to_bits()));
                Reply::Value(module)
            }
            HostRequest::DefineGlobal { name, .. } => {
                self.requests.push(format!("define:{}", name));
                Reply::Value(Value::Undefined)
            }
        }
    }
}

// ---------------------------------------------------------------------------
// Running a program.
// ---------------------------------------------------------------------------

struct Session {
    program: Program,
    interpreter: Interpreter,
    host: Host,
}

impl Session {
    fn new() -> Session {
        let mut host = Host::new();
        let global = host.object();
        let recorder = host.recorder();
        host.set(&global, &Value::String(String::from("console")), recorder);
        host.set(&global, &Value::String(String::from("undefined")), Value::Undefined);
        let document = host.object();
        let mut store = Store::new();
        let envs = Environments::new(&mut store, global, document);
        Session { program: Program::new(), interpreter: Interpreter::new(store, envs), host }
    }

    fn run(&mut self, items: Vec<StmtId>) -> Result<Value, EvalError> {
        let block = self.program.add_block(items);
        self.interpreter.eval_module(block).expect("idle");
        let mut reply: Option<Reply> = None;
        let mut steps = 0;
        loop {
            steps += 1;
            assert!(steps < 100000, "the evaluation does not end");
            match self.interpreter.step(&self.program, reply.take()) {
                Action::Continue => {}
                Action::Request(request) => reply = Some(self.host.perform(request)),
                Action::Done(value) => return Ok(value),
                Action::Failed(error) => return Err(error),
            }
        }
    }

    fn variable(&self, name: &str) -> Plain {
        match self.interpreter.envs().get(name) {
            Lookup::Bound(cell) => plain(self.interpreter.store().read(cell).unwrap()),
            other => panic!("{} is not bound: {:?}", name, other),
        }
    }

    fn list(&self, value: &Plain) -> Vec<Plain> {
        match value {
            Plain::Object(h) => self
                .host
                .elements(&Value::Object(*h))
                .expect("an array")
                .iter()
                .map(plain)
                .collect(),
            other => panic!("not an object: {:?}", other),
        }
    }

    fn property(&self, value: &Plain, key: &str) -> Plain {
        match value {
            Plain::Object(h) => plain(&self.host.get(&Value::Object(*h), &Value::String(key.to_string()))),
            other => panic!("not an object: {:?}", other),
        }
    }

    // Builders.
    fn e(&mut self, expr: Expr) -> ExprId {
        self.program.add_expr(expr)
    }
    fn s(&mut self, stmt: Stmt) -> StmtId {
        self.program.add_stmt(stmt)
    }
    fn p(&mut self, pat: Pat) -> PatId {
        self.program.add_pat(pat)
    }
    fn num(&mut self, x: f64) -> ExprId {
        self.e(Expr::Lit(Lit::Num(x.to_bits())))
    }
    fn text(&mut self, s: &str) -> ExprId {
        self.e(Expr::Lit(Lit::Str(s.to_string())))
    }
    fn boolean(&mut self, b: bool) -> ExprId {
        self.e(Expr::Lit(Lit::Bool(b)))
    }
    fn id(&mut self, name: &str) -> ExprId {
        self.e(Expr::Ident(name.to_string()))
    }
    fn bin(&mut self, op: BinaryOp, left: ExprId, right: ExprId) -> ExprId {
        self.e(Expr::Bin { op, left, right })
    }
    fn array(&mut self, items: Vec<ExprId>) -> ExprId {
        self.e(Expr::Array(items.into_iter().map(Element::Item).collect()))
    }
    fn object(&mut self, members: Vec<(&str, ExprId)>) -> ExprId {
        let props = members
            .into_iter()
            .map(|(k, v)| Prop::KeyValue { key: PropName::Ident(k.to_string()), value: v })
            .collect();
        self.e(Expr::Object(props))
    }
    fn assign(&mut self, name: &str, right: ExprId) -> ExprId {
        let target = self.id(name);
        self.e(Expr::Assign { op: AssignOp::Assign, left: AssignTarget::Expr(target), right })
    }
    fn call(&mut self, callee: ExprId, args: Vec<ExprId>) -> ExprId {
        let args = args.into_iter().map(|expr| Argument { spread: false, expr }).collect();
        self.e(Expr::Call { callee: Callee::Expr(callee), args })
    }
    fn expr_stmt(&mut self, expr: ExprId) -> StmtId {
        self.s(Stmt::Expr(expr))
    }
    fn let_pat(&mut self, name: PatId, init: Option<ExprId>) -> StmtId {
        self.s(Stmt::Decl(Decl::Var(vec![VarDeclarator { name, init }])))
    }
    fn let_(&mut self, name: &str, init: ExprId) -> StmtId {
        let pat = self.p(Pat::Ident(name.to_string()));
        self.let_pat(pat, Some(init))
    }
    fn block(&mut self, stmts: Vec<StmtId>) -> StmtId {
        let b = self.program.add_block(stmts);
        self.s(Stmt::Block(b))
    }
    fn function(&mut self, params: Vec<&str>, body: Vec<StmtId>, source: &str) -> ExprId {
        let params = params.into_iter().map(|n| self.p(Pat::Ident(n.to_string()))).collect();
        let body = self.program.add_block(body);
        let f = self.program.add_function(FunctionDef {
            params,
            body: Some(body),
            is_async: false,
            source: source.to_string(),
        });
        self.e(Expr::Fn(f))
    }
}

fn number(x: f64) -> Plain {
    Plain::Number(x)
}

fn text(s: &str) -> Plain {
    Plain::Text(s.to_string())
}

// ---------------------------------------------------------------------------
// Operators through the machine.
// ---------------------------------------------------------------------------

#[test]
fn numbers_are_combined_by_the_host_in_double_arithmetic() {
    let cases: [(BinaryOp, f64, f64, f64); 6] = [
        (BinaryOp::Add, 0.1, 0.2, 0.1 + 0.2),
        (BinaryOp::Sub, 1.5, 4.0, 1.5 - 4.0),
        (BinaryOp::Mul, 3.0, -7.25, 3.0 * -7.25),
        (BinaryOp::Div, 1.0, 3.0, 1.0 / 3.0),
        (BinaryOp::Div, 1.0, 0.0, f64::INFINITY),
        (BinaryOp::Mod, 7.5, 2.0, 1.5),
    ];
    for (op, a, b, expected) in cases {
        let mut s = Session::new();
        let left = s.num(a);
        let right = s.num(b);
        let e = s.bin(op, left, right);
        let stmt = s.expr_stmt(e);
        let result = s.run(vec![stmt]).unwrap();
        assert_eq!(plain(&result), number(expected));
    }
}

#[test]
fn a_string_beside_a_number_is_parsed_as_a_number() {
    let mut s = Session::new();
    let three = s.text("3");
    let one = s.num(1.0);
    let e = s.bin(BinaryOp::Sub, three, one);
    let stmt = s.expr_stmt(e);
    assert_eq!(plain(&s.run(vec![stmt]).unwrap()), number(2.0));

    let mut s = Session::new();
    let three = s.text("3");
    let four = s.num(4.0);
    let e = s.bin(BinaryOp::Add, three, four);
    let stmt = s.expr_stmt(e);
    assert_eq!(plain(&s.run(vec![stmt]).unwrap()), number(7.0));

    let mut s = Session::new();
    let one = s.num(1.0);
    let a = s.text("a");
    let e = s.bin(BinaryOp::Add, one, a);
    let stmt = s.expr_stmt(e);
    match plain(&s.run(vec![stmt]).unwrap()) {
        Plain::Number(x) => assert!(x.is_nan()),
        other => panic!("expected NaN, got {:?}", other),
    }
}

#[test]
fn two_strings_are_concatenated() {
    let mut s = Session::new();
    let a = s.text("foo");
    let b = s.text("bar");
    let e = s.bin(BinaryOp::Add, a, b);
    let stmt = s.expr_stmt(e);
    assert_eq!(plain(&s.run(vec![stmt]).unwrap()), text("foobar"));
    assert!(s.host.requests.is_empty());
}

#[test]
fn distinct_objects_are_not_equal() {
    let mut s = Session::new();
    let a = s.object(vec![]);
    let b = s.object(vec![]);
    let e = s.bin(BinaryOp::EqEq, a, b);
    let stmt = s.expr_stmt(e);
    assert_eq!(plain(&s.run(vec![stmt]).unwrap()), Plain::Bool(false));

    let mut s = Session::new();
    let a = s.object(vec![]);
    let b = s.object(vec![]);
    let e = s.bin(BinaryOp::NotEqEq, a, b);
    let stmt = s.expr_stmt(e);
    assert_eq!(plain(&s.run(vec![stmt]).unwrap()), Plain::Bool(true));

    let mut s = Session::new();
    let o = s.object(vec![]);
    let d = s.let_("o", o);
    let a = s.id("o");
    let b = s.id("o");
    let e = s.bin(BinaryOp::EqEqEq, a, b);
    let stmt = s.expr_stmt(e);
    assert_eq!(plain(&s.run(vec![d, stmt]).unwrap()), Plain::Bool(true));
}

#[test]
fn comparison_takes_numbers_only() {
    let mut s = Session::new();
    let a = s.text("a");
    let b = s.text("b");
    let e = s.bin(BinaryOp::Lt, a, b);
    let stmt = s.expr_stmt(e);
    assert_eq!(s.run(vec![stmt]).unwrap_err().kind, ErrorKind::Type);

    let mut s = Session::new();
    let a = s.num(1.0);
    let b = s.num(2.0);
    let e = s.bin(BinaryOp::Lt, a, b);
    let stmt = s.expr_stmt(e);
    assert_eq!(plain(&s.run(vec![stmt]).unwrap()), Plain::Bool(true));
}

// ---------------------------------------------------------------------------
// Destructuring.
// ---------------------------------------------------------------------------

#[test]
fn an_array_pattern_binds_by_position_with_holes_and_rest() {
    // let [a, , b, ...c] = [1, 2, 3, 4]
    let mut s = Session::new();
    let items = vec![s.num(1.0), s.num(2.0), s.num(3.0), s.num(4.0)];
    let right = s.array(items);
    let a = s.p(Pat::Ident("a".to_string()));
    let b = s.p(Pat::Ident("b".to_string()));
    let c = s.p(Pat::Ident("c".to_string()));
    let rest = s.p(Pat::Rest(c));
    let pattern = s.p(Pat::Array(vec![Some(a), None, Some(b), Some(rest)]));
    let d = s.let_pat(pattern, Some(right));
    s.run(vec![d]).unwrap();
    assert_eq!(s.variable("a"), number(1.0));
    assert_eq!(s.variable("b"), number(3.0));
    let c = s.variable("c");
    assert_eq!(s.list(&c), vec![number(4.0)]);
}

#[test]
fn an_object_pattern_takes_keys_and_leaves_the_rest() {
    // let {x, ...rest} = {x: 1, y: 2, z: 3}
    let mut s = Session::new();
    let one = s.num(1.0);
    let two = s.num(2.0);
    let three = s.num(3.0);
    let right = s.object(vec![("x", one), ("y", two), ("z", three)]);
    let rest = s.p(Pat::Ident("rest".to_string()));
    let pattern = s.p(Pat::Object(vec![
        ObjectPatProp::Assign { key: "x".to_string(), value: None },
        ObjectPatProp::Rest(rest),
    ]));
    let d = s.let_pat(pattern, Some(right));
    s.run(vec![d]).unwrap();
    assert_eq!(s.variable("x"), number(1.0));
    let rest = s.variable("rest");
    assert_eq!(s.property(&rest, "x"), Plain::Undefined);
    assert_eq!(s.property(&rest, "y"), number(2.0));
    assert_eq!(s.property(&rest, "z"), number(3.0));
}

#[test]
fn destructuring_something_else_than_an_array_or_object_fails() {
    let mut s = Session::new();
    let right = s.num(1.0);
    let a = s.p(Pat::Ident("a".to_string()));
    let pattern = s.p(Pat::Array(vec![Some(a)]));
    let d = s.let_pat(pattern, Some(right));
    assert_eq!(s.run(vec![d]).unwrap_err().kind, ErrorKind::Type);

    let mut s = Session::new();
    let right = s.num(1.0);
    let pattern =
        s.p(Pat::Object(vec![ObjectPatProp::Assign { key: "x".to_string(), value: None }]));
    let d = s.let_pat(pattern, Some(right));
    assert_eq!(s.run(vec![d]).unwrap_err().kind, ErrorKind::Type);
}

#[test]
fn a_default_is_taken_only_for_undefined() {
    // let [a = 5, b = 6] = [1]
    let mut s = Session::new();
    let items = vec![s.num(1.0)];
    let right = s.array(items);
    let a = s.p(Pat::Ident("a".to_string()));
    let five = s.num(5.0);
    let a = s.p(Pat::Assign { left: a, right: five });
    let b = s.p(Pat::Ident("b".to_string()));
    let six = s.num(6.0);
    let b = s.p(Pat::Assign { left: b, right: six });
    let pattern = s.p(Pat::Array(vec![Some(a), Some(b)]));
    let d = s.let_pat(pattern, Some(right));
    s.run(vec![d]).unwrap();
    assert_eq!(s.variable("a"), number(1.0));
    assert_eq!(s.variable("b"), number(6.0));
}

// ---------------------------------------------------------------------------
// Closures and the update asymmetry.
// ---------------------------------------------------------------------------

#[test]
fn a_closure_sees_a_later_primitive_assignment_but_not_a_later_object() {
    // let n = 1; let o = {v: 1};
    // let read_n = function () { n }; let read_o = function () { o };
    // n = 2; o = {v: 2};
    // read_n() is 2, read_o().v is 1.
    let mut s = Session::new();
    let one = s.num(1.0);
    let d1 = s.let_("n", one);
    let v1 = s.num(1.0);
    let o1 = s.object(vec![("v", v1)]);
    let d2 = s.let_("o", o1);
    let n = s.id("n");
    let body_n = s.expr_stmt(n);
    let f = s.function(vec![], vec![body_n], "return weblab_n;");
    let d3 = s.let_("read_n", f);
    let o = s.id("o");
    let body_o = s.expr_stmt(o);
    let g = s.function(vec![], vec![body_o], "return weblab_o;");
    let d4 = s.let_("read_o", g);
    let two = s.num(2.0);
    let a1 = s.assign("n", two);
    let a1 = s.expr_stmt(a1);
    let v2 = s.num(2.0);
    let o2 = s.object(vec![("v", v2)]);
    let a2 = s.assign("o", o2);
    let a2 = s.expr_stmt(a2);
    let read_n = s.id("read_n");
    let c1 = s.call(read_n, vec![]);
    let r1 = s.let_("seen_n", c1);
    let read_o = s.id("read_o");
    let c2 = s.call(read_o, vec![]);
    let r2 = s.let_("seen_o", c2);
    s.run(vec![d1, d2, d3, d4, a1, a2, r1, r2]).unwrap();
    assert_eq!(s.variable("seen_n"), number(2.0));
    let seen = s.variable("seen_o");
    assert_eq!(s.property(&seen, "v"), number(1.0));
    let now = s.variable("o");
    assert_eq!(s.property(&now, "v"), number(2.0));
}

#[test]
fn closures_made_in_a_loop_share_the_counter() {
    // let fns = {}; for (let i = 0; i < 3; i++) { fns[i] = function () { i } }
    // fns[0]() is 3: the counter is updated in place.
    let mut s = Session::new();
    let empty = s.object(vec![]);
    let d = s.let_("fns", empty);
    let zero = s.num(0.0);
    let i_pat = s.p(Pat::Ident("i".to_string()));
    let i = s.id("i");
    let three = s.num(3.0);
    let test = s.bin(BinaryOp::Lt, i, three);
    let i = s.id("i");
    let update = s.e(Expr::Update { op: UpdateOp::PlusPlus, prefix: false, arg: i });
    let i = s.id("i");
    let body = s.expr_stmt(i);
    let f = s.function(vec![], vec![body], "return weblab_i;");
    let fns = s.id("fns");
    let i = s.id("i");
    let member = s.e(Expr::Member { obj: fns, prop: MemberProp::Computed(i) });
    let store = s.e(Expr::Assign {
        op: AssignOp::Assign,
        left: AssignTarget::Expr(member),
        right: f,
    });
    let store = s.expr_stmt(store);
    let body = s.block(vec![store]);
    let for_ = s.s(Stmt::For {
        init: Some(ForInit::VarDecl(vec![VarDeclarator { name: i_pat, init: Some(zero) }])),
        test: Some(test),
        update: Some(update),
        body,
    });
    s.run(vec![d, for_]).unwrap();
    assert_eq!(s.variable("i"), number(3.0));
    let fns = s.variable("fns");
    let first = s.property(&fns, "0");
    match first {
        Plain::Closure(id) => {
            let closure = s.interpreter.store().closure(id).unwrap();
            match closure.env.get("i") {
                Lookup::Bound(cell) => {
                    assert_eq!(plain(s.interpreter.store().read(cell).unwrap()), number(3.0))
                }
                other => panic!("i is not captured: {:?}", other),
            }
        }
        other => panic!("expected a closure, got {:?}", other),
    }
}

// ---------------------------------------------------------------------------
// Iteration.
// ---------------------------------------------------------------------------

fn for_of(s: &mut Session, target: ExprId, body: Vec<StmtId>) -> StmtId {
    let x = s.p(Pat::Ident("x".to_string()));
    let body = s.block(body);
    s.s(Stmt::ForOf { left: ForHead::VarDecl(x), right: target, body })
}

fn record(s: &mut Session, what: ExprId) -> StmtId {
    let console = s.id("console");
    let call = s.call(console, vec![what]);
    s.expr_stmt(call)
}

#[test]
fn for_of_visits_what_a_custom_iterable_yields_in_order() {
    let mut s = Session::new();
    let iterable = Value::Object(s.host.add(Kind::Iterable(vec![
        Value::Number(10f64.to_bits()),
        Value::Number(20f64.to_bits()),
        Value::Number(30f64.to_bits()),
    ])));
    let base = s.interpreter.envs().depth();
    let global = match s.interpreter.envs().get("globalThis") {
        Lookup::Bound(cell) => s.interpreter.store().read(cell).unwrap().clone(),
        _ => panic!("no global object"),
    };
    s.host.set(&global, &Value::String("source".to_string()), iterable);
    let global_expr = s.id("globalThis");
    let source = s.e(Expr::Member { obj: global_expr, prop: MemberProp::Ident("source".to_string()) });
    let x = s.id("x");
    let rec = record(&mut s, x);
    let loop_ = for_of(&mut s, source, vec![rec]);
    s.run(vec![loop_]).unwrap();
    assert_eq!(s.host.recorded, vec![vec![number(10.0)], vec![number(20.0)], vec![number(30.0)]]);
    assert_eq!(s.interpreter.envs().depth(), base);
}

#[test]
fn for_of_over_something_not_iterable_fails() {
    let mut s = Session::new();
    let target = s.num(5.0);
    let loop_ = for_of(&mut s, target, vec![]);
    let error = s.run(vec![loop_]).unwrap_err();
    assert!(error.message.contains("not iterable"));
}

#[test]
fn break_and_continue_are_seen_directly_in_the_block_of_a_loop() {
    // for (x of [1, 2, 3]) { console(x); break; console(0) }
    let mut s = Session::new();
    let items = vec![s.num(1.0), s.num(2.0), s.num(3.0)];
    let target = s.array(items);
    let x = s.id("x");
    let first = record(&mut s, x);
    let brk = s.s(Stmt::Break);
    let zero = s.num(0.0);
    let never = record(&mut s, zero);
    let loop_ = for_of(&mut s, target, vec![first, brk, never]);
    s.run(vec![loop_]).unwrap();
    assert_eq!(s.host.recorded, vec![vec![number(1.0)]]);

    // for (x of [1, 2, 3]) { continue; console(x) }
    let mut s = Session::new();
    let items = vec![s.num(1.0), s.num(2.0), s.num(3.0)];
    let target = s.array(items);
    let cont = s.s(Stmt::Continue);
    let x = s.id("x");
    let never = record(&mut s, x);
    let loop_ = for_of(&mut s, target, vec![cont, never]);
    s.run(vec![loop_]).unwrap();
    assert!(s.host.recorded.is_empty());
}

#[test]
fn break_inside_a_nested_statement_is_not_supported() {
    // for (x of [1]) { if (true) break; }
    let mut s = Session::new();
    let base = s.interpreter.envs().depth();
    let items = vec![s.num(1.0)];
    let target = s.array(items);
    let yes = s.boolean(true);
    let brk = s.s(Stmt::Break);
    let if_ = s.s(Stmt::If { test: yes, cons: brk, alt: None });
    let loop_ = for_of(&mut s, target, vec![if_]);
    let error = s.run(vec![loop_]).unwrap_err();
    assert_eq!(error.kind, ErrorKind::Syntax);
    assert_eq!(s.interpreter.envs().depth(), base);
    assert!(s.interpreter.idle());
}

#[test]
fn while_runs_as_long_as_the_test_is_true() {
    // let i = 0; while (i < 3) { i += 1 }
    let mut s = Session::new();
    let zero = s.num(0.0);
    let d = s.let_("i", zero);
    let i = s.id("i");
    let three = s.num(3.0);
    let test = s.bin(BinaryOp::Lt, i, three);
    let i = s.id("i");
    let one = s.num(1.0);
    let add = s.e(Expr::Assign { op: AssignOp::AddAssign, left: AssignTarget::Expr(i), right: one });
    let add = s.expr_stmt(add);
    let body = s.block(vec![add]);
    let loop_ = s.s(Stmt::While { test, body });
    s.run(vec![d, loop_]).unwrap();
    assert_eq!(s.variable("i"), number(3.0));
}

// ---------------------------------------------------------------------------
// Calls.
// ---------------------------------------------------------------------------

fn define_two_parameter_function(s: &mut Session) -> StmtId {
    // let f = function (a, b) { b }
    let b = s.id("b");
    let body = s.expr_stmt(b);
    let f = s.function(vec!["a", "b"], vec![body], "return weblab_b;");
    s.let_("f", f)
}

#[test]
fn excess_arguments_are_packed_into_the_last_parameter() {
    let mut s = Session::new();
    let d = define_two_parameter_function(&mut s);
    let f = s.id("f");
    let args = vec![s.num(1.0), s.num(2.0), s.num(3.0), s.num(4.0)];
    let call = s.call(f, args);
    let r = s.let_("r", call);
    s.run(vec![d, r]).unwrap();
    let r = s.variable("r");
    assert_eq!(s.list(&r), vec![number(2.0), number(3.0), number(4.0)]);
}

#[test]
fn as_many_arguments_as_parameters_are_bound_one_by_one() {
    let mut s = Session::new();
    let d = define_two_parameter_function(&mut s);
    let f = s.id("f");
    let args = vec![s.num(1.0), s.num(2.0)];
    let call = s.call(f, args);
    let r = s.let_("r", call);
    s.run(vec![d, r]).unwrap();
    assert_eq!(s.variable("r"), number(2.0));
}

#[test]
fn too_few_arguments_are_an_arity_error() {
    let mut s = Session::new();
    let base = s.interpreter.envs().depth();
    let d = define_two_parameter_function(&mut s);
    let f = s.id("f");
    let args = vec![s.num(1.0)];
    let call = s.call(f, args);
    let stmt = s.expr_stmt(call);
    assert_eq!(s.run(vec![d, stmt]).unwrap_err().kind, ErrorKind::Arity);
    assert_eq!(s.interpreter.envs().depth(), base);
}

#[test]
fn construction_requires_the_exact_number_of_arguments() {
    let mut s = Session::new();
    let d = define_two_parameter_function(&mut s);
    let f = s.id("f");
    let args = vec![s.num(1.0), s.num(2.0), s.num(3.0)]
        .into_iter()
        .map(|expr| Argument { spread: false, expr })
        .collect();
    let new = s.e(Expr::New { callee: f, args: Some(args) });
    let stmt = s.expr_stmt(new);
    assert_eq!(s.run(vec![d, stmt]).unwrap_err().kind, ErrorKind::Arity);

    let mut s = Session::new();
    let d = define_two_parameter_function(&mut s);
    let f = s.id("f");
    let args = vec![s.num(1.0), s.num(2.0)]
        .into_iter()
        .map(|expr| Argument { spread: false, expr })
        .collect();
    let new = s.e(Expr::New { callee: f, args: Some(args) });
    let r = s.let_("r", new);
    s.run(vec![d, r]).unwrap();
    assert_eq!(s.variable("r"), number(2.0));
}

#[test]
fn calling_what_is_no_function_is_a_type_error() {
    let mut s = Session::new();
    let five = s.num(5.0);
    let call = s.call(five, vec![]);
    let stmt = s.expr_stmt(call);
    assert_eq!(s.run(vec![stmt]).unwrap_err().kind, ErrorKind::Type);
}

#[test]
fn a_function_body_does_not_see_the_variables_of_its_caller() {
    // let f = function () { hidden }; { let hidden = 1; f() } fails: hidden is declared later.
    let mut s = Session::new();
    let hidden = s.id("hidden");
    let body = s.expr_stmt(hidden);
    let f = s.function(vec![], vec![body], "return weblab_hidden;");
    let d = s.let_("f", f);
    let one = s.num(1.0);
    let h = s.let_("hidden", one);
    let f = s.id("f");
    let call = s.call(f, vec![]);
    let stmt = s.expr_stmt(call);
    let error = s.run(vec![d, h, stmt]).unwrap_err();
    assert_eq!(error.kind, ErrorKind::Name);
}

// ---------------------------------------------------------------------------
// Failures.
// ---------------------------------------------------------------------------

#[test]
fn a_thrown_value_is_caught_as_a_wrapped_error() {
    // try { throw "boom" } catch (e) { seen = e }
    let mut s = Session::new();
    let base = s.interpreter.envs().depth();
    let boom = s.text("boom");
    let throw = s.s(Stmt::Throw(boom));
    let block = s.program.add_block(vec![throw]);
    let e = s.id("e");
    let keep = s.assign("seen", e);
    let keep = s.expr_stmt(keep);
    let handler = s.program.add_block(vec![keep]);
    let param = s.p(Pat::Ident("e".to_string()));
    let try_ = s.s(Stmt::Try {
        block,
        handler: Some(CatchClause { param: Some(param), body: handler }),
    });
    let undefined = s.e(Expr::Lit(Lit::Null));
    let d = s.let_("seen", undefined);
    s.run(vec![d, try_]).unwrap();
    let seen = s.variable("seen");
    match s.property(&seen, "message") {
        Plain::Text(message) => assert_eq!(message, "boom"),
        other => panic!("expected a message, got {:?}", other),
    }
    assert_eq!(s.interpreter.envs().depth(), base);
}

#[test]
fn an_uncaught_throw_surfaces_with_the_thrown_text() {
    let mut s = Session::new();
    let boom = s.text("boom");
    let throw = s.s(Stmt::Throw(boom));
    let error = s.run(vec![throw]).unwrap_err();
    assert_eq!(error.kind, ErrorKind::Thrown);
    assert_eq!(error.message, "boom");
}

#[test]
fn a_failure_deep_in_nested_scopes_leaves_the_environment_balanced() {
    // while (true) { try { for (x of [1]) { missing } } catch { throw "again" } }
    let mut s = Session::new();
    let base = s.interpreter.envs().depth();
    let items = vec![s.num(1.0)];
    let target = s.array(items);
    let missing = s.id("missing");
    let use_ = s.expr_stmt(missing);
    let inner = for_of(&mut s, target, vec![use_]);
    let block = s.program.add_block(vec![inner]);
    let again = s.text("again");
    let throw = s.s(Stmt::Throw(again));
    let handler = s.program.add_block(vec![throw]);
    let try_ = s.s(Stmt::Try { block, handler: Some(CatchClause { param: None, body: handler }) });
    let body = s.block(vec![try_]);
    let yes = s.boolean(true);
    let loop_ = s.s(Stmt::While { test: yes, body });
    let error = s.run(vec![loop_]).unwrap_err();
    assert_eq!(error.kind, ErrorKind::Thrown);
    assert_eq!(s.interpreter.envs().depth(), base);
    // The interpreter can be used again.
    let one = s.num(1.0);
    let stmt = s.expr_stmt(one);
    assert_eq!(plain(&s.run(vec![stmt]).unwrap()), number(1.0));
}

#[test]
fn a_name_that_nothing_binds_is_a_name_error() {
    let mut s = Session::new();
    let missing = s.id("missing");
    let stmt = s.expr_stmt(missing);
    assert_eq!(s.run(vec![stmt]).unwrap_err().kind, ErrorKind::Name);
}

#[test]
fn a_global_name_is_looked_up_in_the_host() {
    let mut s = Session::new();
    let console = s.id("console");
    let stmt = s.expr_stmt(console);
    match plain(&s.run(vec![stmt]).unwrap()) {
        Plain::Native(_) => {}
        other => panic!("expected the host function, got {:?}", other),
    }
}

#[test]
fn reading_a_member_of_undefined_or_of_a_primitive_fails() {
    let mut s = Session::new();
    let undefined = s.id("undefined");
    let member = s.e(Expr::Member { obj: undefined, prop: MemberProp::Ident("x".to_string()) });
    let stmt = s.expr_stmt(member);
    assert_eq!(s.run(vec![stmt]).unwrap_err().kind, ErrorKind::Reference);

    let mut s = Session::new();
    let five = s.num(5.0);
    let member = s.e(Expr::Member { obj: five, prop: MemberProp::Ident("x".to_string()) });
    let stmt = s.expr_stmt(member);
    assert_eq!(s.run(vec![stmt]).unwrap_err().kind, ErrorKind::Type);
}

#[test]
fn an_unsupported_node_fails_as_syntax() {
    let mut s = Session::new();
    let e = s.e(Expr::Unsupported("yield".to_string()));
    let stmt = s.expr_stmt(e);
    let error = s.run(vec![stmt]).unwrap_err();
    assert_eq!(error.kind, ErrorKind::Syntax);
    assert!(error.message.contains("not supported"));

    let mut s = Session::new();
    let stmt = s.s(Stmt::Unsupported("switch".to_string()));
    assert_eq!(s.run(vec![stmt]).unwrap_err().kind, ErrorKind::Syntax);
}

// ---------------------------------------------------------------------------
// Other expressions.
// ---------------------------------------------------------------------------

#[test]
fn postfix_update_gives_the_old_value_and_prefix_the_new() {
    let mut s = Session::new();
    let one = s.num(1.0);
    let d = s.let_("i", one);
    let i = s.id("i");
    let post = s.e(Expr::Update { op: UpdateOp::PlusPlus, prefix: false, arg: i });
    let a = s.let_("a", post);
    let i = s.id("i");
    let pre = s.e(Expr::Update { op: UpdateOp::MinusMinus, prefix: true, arg: i });
    let b = s.let_("b", pre);
    s.run(vec![d, a, b]).unwrap();
    assert_eq!(s.variable("a"), number(1.0));
    assert_eq!(s.variable("b"), number(1.0));
    assert_eq!(s.variable("i"), number(1.0));
}

#[test]
fn a_template_folds_its_pieces_from_left_to_right() {
    // `a${1}b${"c"}d`
    let mut s = Session::new();
    let one = s.num(1.0);
    let c = s.text("c");
    let tpl = s.e(Expr::Tpl {
        quasis: vec![
            Quasi { text: "a".to_string(), tail: false },
            Quasi { text: "b".to_string(), tail: false },
            Quasi { text: "d".to_string(), tail: true },
        ],
        exprs: vec![one, c],
    });
    let stmt = s.expr_stmt(tpl);
    assert_eq!(plain(&s.run(vec![stmt]).unwrap()), text("a1bcd"));
}

#[test]
fn a_conditional_evaluates_one_branch_only() {
    let mut s = Session::new();
    let zero = s.num(0.0);
    let missing = s.id("missing");
    let two = s.num(2.0);
    let cond = s.e(Expr::Cond { test: zero, cons: missing, alt: two });
    let stmt = s.expr_stmt(cond);
    assert_eq!(plain(&s.run(vec![stmt]).unwrap()), number(2.0));
}

#[test]
fn typeof_names_the_kind_of_a_value() {
    let mut s = Session::new();
    let f = s.function(vec![], vec![], "");
    let e = s.e(Expr::Unary { op: UnaryOp::TypeOf, arg: f });
    let stmt = s.expr_stmt(e);
    assert_eq!(plain(&s.run(vec![stmt]).unwrap()), text("function"));

    let mut s = Session::new();
    let n = s.e(Expr::Lit(Lit::Null));
    let e = s.e(Expr::Unary { op: UnaryOp::TypeOf, arg: n });
    let stmt = s.expr_stmt(e);
    assert_eq!(plain(&s.run(vec![stmt]).unwrap()), text("object"));
}

#[test]
fn a_spread_in_an_array_literal_is_expanded() {
    let mut s = Session::new();
    let inner = vec![s.num(2.0), s.num(3.0)];
    let inner = s.array(inner);
    let one = s.num(1.0);
    let outer = s.e(Expr::Array(vec![Element::Item(one), Element::Hole, Element::Spread(inner)]));
    let d = s.let_("a", outer);
    s.run(vec![d]).unwrap();
    let a = s.variable("a");
    assert_eq!(s.list(&a), vec![number(1.0), Plain::Undefined, number(2.0), number(3.0)]);
}

#[test]
fn a_native_form_captures_the_free_variables_of_the_body() {
    // let k = 1; let f = function (a) { a + k + Math.abs(a) + other }
    let mut s = Session::new();
    let one = s.num(1.0);
    let d = s.let_("k", one);
    let f = s.function(
        vec!["a"],
        vec![],
        "return weblab_a + weblab_k + weblab_Math.abs(weblab_a) + weblab_other;",
    );
    let stmt = s.let_("f", f);
    s.run(vec![d, stmt]).unwrap();
    let compiled = s
        .host
        .table
        .iter()
        .filter_map(|entry| match &entry.kind {
            Kind::Compiled { params, bound, body } => Some((params.clone(), *bound, body.clone())),
            _ => None,
        })
        .next()
        .expect("the function was compiled");
    assert_eq!(compiled.0, vec!["weblab_Math", "weblab_k", "weblab_a"]);
    assert_eq!(compiled.1, 2);
    assert!(compiled.2.contains("weblab_other"));
    assert_eq!(s.host.requests, vec!["global:Math"]);
}

#[test]
fn stepping_an_idle_interpreter_is_a_protocol_failure() {
    let mut s = Session::new();
    match s.interpreter.step(&s.program, None) {
        Action::Failed(error) => assert_eq!(error.kind, ErrorKind::Protocol),
        _ => panic!("expected a failure"),
    }
    assert!(s.interpreter.idle());
}

#[test]
fn an_answer_that_was_not_asked_for_fails_the_evaluation() {
    let mut s = Session::new();
    let base = s.interpreter.envs().depth();
    let one = s.num(1.0);
    let stmt = s.expr_stmt(one);
    let block = s.program.add_block(vec![stmt]);
    s.interpreter.eval_module(block).unwrap();
    let mut action = s.interpreter.step(&s.program, Some(Reply::Nothing));
    let mut steps = 0;
    loop {
        match action {
            Action::Failed(error) => {
                assert_eq!(error.kind, ErrorKind::Protocol);
                break;
            }
            Action::Continue => action = s.interpreter.step(&s.program, None),
            _ => panic!("expected a failure"),
        }
        steps += 1;
        assert!(steps < 100);
    }
    assert_eq!(s.interpreter.envs().depth(), base);
}

// ---------------------------------------------------------------------------
// Objects, classes, and the rest of the statements.
// ---------------------------------------------------------------------------

#[test]
fn an_object_literal_defines_its_members_in_order() {
    // let v = 1; let o = {v, k: 2, ["c" + "d"]: 3, m() {}, get g() {}, ...{x: 4}}
    let mut s = Session::new();
    let one = s.num(1.0);
    let d = s.let_("v", one);
    let two = s.num(2.0);
    let c = s.text("c");
    let dd = s.text("d");
    let computed = s.bin(BinaryOp::Add, c, dd);
    let three = s.num(3.0);
    let four = s.num(4.0);
    let spread = s.object(vec![("x", four)]);
    let body = s.program.add_block(vec![]);
    let method = s.program.add_function(FunctionDef {
        params: vec![],
        body: Some(body),
        is_async: false,
        source: String::new(),
    });
    let getter = s.program.add_function(FunctionDef {
        params: vec![],
        body: Some(body),
        is_async: false,
        source: String::new(),
    });
    let literal = s.e(Expr::Object(vec![
        Prop::Shorthand("v".to_string()),
        Prop::KeyValue { key: PropName::Ident("k".to_string()), value: two },
        Prop::KeyValue { key: PropName::Computed(computed), value: three },
        Prop::Method { key: PropName::Str("m".to_string()), function: method },
        Prop::Getter { key: PropName::Ident("g".to_string()), function: getter },
        Prop::Spread(spread),
    ]));
    let o = s.let_("o", literal);
    s.run(vec![d, o]).unwrap();
    let defined: Vec<&String> =
        s.host.requests.iter().filter(|r| r.starts_with("define:") && !r.starts_with("define:x:")).collect();
    let o = s.variable("o");
    assert_eq!(s.property(&o, "v"), number(1.0));
    assert_eq!(s.property(&o, "k"), number(2.0));
    assert_eq!(s.property(&o, "cd"), number(3.0));
    assert_eq!(s.property(&o, "x"), number(4.0));
    assert!(matches!(s.property(&o, "m"), Plain::Closure(_)));
    assert_eq!(
        s.host.requests.iter().filter(|r| r.starts_with("define:")).cloned().collect::<Vec<_>>(),
        vec![
            "define:x:value:cew",
            "define:v:value:cew",
            "define:k:value:cew",
            "define:cd:value:cew",
            "define:m:value:cew",
            "define:g:get:ce-",
            "define:x:value:cew",
        ]
    );
    assert_eq!(defined.len(), 5);
}

#[test]
fn a_spread_of_something_else_than_an_object_fails() {
    let mut s = Session::new();
    let one = s.num(1.0);
    let literal = s.e(Expr::Object(vec![Prop::Spread(one)]));
    let stmt = s.expr_stmt(literal);
    assert_eq!(s.run(vec![stmt]).unwrap_err().kind, ErrorKind::Type);
}

#[test]
fn a_method_call_passes_the_object_as_receiver() {
    // let o = {log: console}; o.log(1)
    let mut s = Session::new();
    let console = s.id("console");
    let literal = s.object(vec![("log", console)]);
    let d = s.let_("o", literal);
    let o = s.id("o");
    let member = s.e(Expr::Member { obj: o, prop: MemberProp::Ident("log".to_string()) });
    let one = s.num(1.0);
    let call = s.call(member, vec![one]);
    let stmt = s.expr_stmt(call);
    s.run(vec![d, stmt]).unwrap();
    assert_eq!(s.host.recorded, vec![vec![number(1.0)]]);
    assert_eq!(s.host.receivers, vec![s.variable("o")]);
}

#[test]
fn an_interpreted_method_sees_its_receiver_as_this() {
    // let o = {n: 5, read: function () { this }}; let r = o.read()
    let mut s = Session::new();
    let five = s.num(5.0);
    let this = s.e(Expr::This);
    let body = s.expr_stmt(this);
    let read = s.function(vec![], vec![body], "return this;");
    let literal = s.object(vec![("n", five), ("read", read)]);
    let d = s.let_("o", literal);
    let o = s.id("o");
    let member = s.e(Expr::Member { obj: o, prop: MemberProp::Ident("read".to_string()) });
    let call = s.call(member, vec![]);
    let r = s.let_("r", call);
    s.run(vec![d, r]).unwrap();
    assert_eq!(s.variable("r"), s.variable("o"));
}

#[test]
fn spread_arguments_are_expanded() {
    // console(0, ...[1, 2], 3)
    let mut s = Session::new();
    let console = s.id("console");
    let zero = s.num(0.0);
    let items = vec![s.num(1.0), s.num(2.0)];
    let inner = s.array(items);
    let three = s.num(3.0);
    let call = s.e(Expr::Call {
        callee: Callee::Expr(console),
        args: vec![
            Argument { spread: false, expr: zero },
            Argument { spread: true, expr: inner },
            Argument { spread: false, expr: three },
        ],
    });
    let stmt = s.expr_stmt(call);
    s.run(vec![stmt]).unwrap();
    assert_eq!(s.host.recorded, vec![vec![number(0.0), number(1.0), number(2.0), number(3.0)]]);
}

#[test]
fn a_class_is_assembled_from_its_members() {
    // class A { constructor(x) {} m() {} static s() {} f = 1; static g; }
    let mut s = Session::new();
    let body = s.program.add_block(vec![]);
    let x = s.p(Pat::Ident("x".to_string()));
    let ctor = s.program.add_function(FunctionDef {
        params: vec![x],
        body: Some(body),
        is_async: false,
        source: "weblab_this.x = weblab_x;".to_string(),
    });
    let m = s.program.add_function(FunctionDef {
        params: vec![],
        body: Some(body),
        is_async: false,
        source: String::new(),
    });
    let st = s.program.add_function(FunctionDef {
        params: vec![],
        body: Some(body),
        is_async: false,
        source: String::new(),
    });
    let one = s.num(1.0);
    let class = s.program.add_class(weblab_interpreter::ast::Class {
        super_class: None,
        body: vec![
            weblab_interpreter::ast::ClassMember::Method {
                key: PropName::Ident("m".to_string()),
                function: m,
                is_static: false,
            },
            weblab_interpreter::ast::ClassMember::Constructor(ctor),
            weblab_interpreter::ast::ClassMember::Method {
                key: PropName::Ident("s".to_string()),
                function: st,
                is_static: true,
            },
            weblab_interpreter::ast::ClassMember::ClassProp {
                key: PropName::Ident("f".to_string()),
                value: Some(one),
                is_static: false,
            },
            weblab_interpreter::ast::ClassMember::ClassProp {
                key: PropName::Ident("g".to_string()),
                value: None,
                is_static: true,
            },
        ],
    });
    let decl = s.s(Stmt::Decl(Decl::Class { ident: "A".to_string(), class }));
    s.run(vec![decl]).unwrap();
    assert!(matches!(s.variable("A"), Plain::Native(_)));
    assert_eq!(
        s.host.requests,
        vec![
            "class:parent=false:link=---",
            "member:m:prototype:-ew",
            "member:s:static:-ew",
            "member:f:prototype:-ew",
            "member:g:static:-ew",
        ]
    );
    let a = s.variable("A");
    match a {
        Plain::Native(h) => match &s.host.table[h as usize].kind {
            Kind::Compiled { params, bound, .. } => {
                assert_eq!(params, &vec!["weblab_this".to_string(), "weblab_x".to_string()]);
                assert_eq!(*bound, 1);
            }
            _ => panic!("the constructor was not compiled"),
        },
        _ => unreachable!(),
    }

    // new A(1) is constructed by the host.
    let a = s.id("A");
    let one = s.num(1.0);
    let new = s.e(Expr::New { callee: a, args: Some(vec![Argument { spread: false, expr: one }]) });
    let stmt = s.expr_stmt(new);
    s.run(vec![stmt]).unwrap();
    assert_eq!(s.host.requests.last().unwrap(), "construct:1");
}

#[test]
fn a_class_extends_a_function_only() {
    let mut s = Session::new();
    let five = s.num(5.0);
    let class = s.program.add_class(weblab_interpreter::ast::Class {
        super_class: Some(five),
        body: vec![],
    });
    let e = s.e(Expr::Class(class));
    let stmt = s.expr_stmt(e);
    assert_eq!(s.run(vec![stmt]).unwrap_err().kind, ErrorKind::Type);

    let mut s = Session::new();
    let parent = s.id("console");
    let class = s.program.add_class(weblab_interpreter::ast::Class {
        super_class: Some(parent),
        body: vec![],
    });
    let e = s.e(Expr::Class(class));
    let stmt = s.expr_stmt(e);
    s.run(vec![stmt]).unwrap();
    assert_eq!(s.host.requests, vec!["class:parent=true:link=---"]);
}

#[test]
fn for_in_visits_the_keys_of_an_object() {
    let mut s = Session::new();
    let one = s.num(1.0);
    let two = s.num(2.0);
    let target = s.object(vec![("a", one), ("b", two)]);
    let k = s.p(Pat::Ident("k".to_string()));
    let key = s.id("k");
    let rec = record(&mut s, key);
    let body = s.block(vec![rec]);
    let loop_ = s.s(Stmt::ForIn { left: ForHead::VarDecl(k), right: target, body });
    s.run(vec![loop_]).unwrap();
    assert_eq!(s.host.recorded, vec![vec![text("a")], vec![text("b")]]);

    let mut s = Session::new();
    let target = s.num(1.0);
    let k = s.p(Pat::Ident("k".to_string()));
    let body = s.block(vec![]);
    let loop_ = s.s(Stmt::ForIn { left: ForHead::Pat(k), right: target, body });
    assert_eq!(s.run(vec![loop_]).unwrap_err().kind, ErrorKind::Type);
}

#[test]
fn do_while_runs_its_body_first() {
    // let i = 0; do { i += 1 } while (i < 3)
    let mut s = Session::new();
    let base = s.interpreter.envs().depth();
    let zero = s.num(0.0);
    let d = s.let_("i", zero);
    let i = s.id("i");
    let one = s.num(1.0);
    let add = s.e(Expr::Assign { op: AssignOp::AddAssign, left: AssignTarget::Expr(i), right: one });
    let add = s.expr_stmt(add);
    let body = s.block(vec![add]);
    let i = s.id("i");
    let three = s.num(3.0);
    let test = s.bin(BinaryOp::Lt, i, three);
    let loop_ = s.s(Stmt::DoWhile { test, body });
    s.run(vec![d, loop_]).unwrap();
    assert_eq!(s.variable("i"), number(3.0));
    assert_eq!(s.interpreter.envs().depth(), base);

    // do { console(1) } while (false) runs once.
    let mut s = Session::new();
    let one = s.num(1.0);
    let rec = record(&mut s, one);
    let body = s.block(vec![rec]);
    let no = s.boolean(false);
    let loop_ = s.s(Stmt::DoWhile { test: no, body });
    s.run(vec![loop_]).unwrap();
    assert_eq!(s.host.recorded.len(), 1);
}

#[test]
fn a_loop_test_that_is_not_the_boolean_true_ends_the_loop() {
    // while (1) { console(1) } does not run.
    let mut s = Session::new();
    let one = s.num(1.0);
    let x = s.num(1.0);
    let rec = record(&mut s, x);
    let body = s.block(vec![rec]);
    let loop_ = s.s(Stmt::While { test: one, body });
    s.run(vec![loop_]).unwrap();
    assert!(s.host.recorded.is_empty());
}

#[test]
fn for_runs_init_test_body_and_update() {
    // for (let i = 0; i < 4; i++) { if (i == 2) { } console(i) }
    let mut s = Session::new();
    let base = s.interpreter.envs().depth();
    let zero = s.num(0.0);
    let i_pat = s.p(Pat::Ident("i".to_string()));
    let i = s.id("i");
    let four = s.num(4.0);
    let test = s.bin(BinaryOp::Lt, i, four);
    let i = s.id("i");
    let update = s.e(Expr::Update { op: UpdateOp::PlusPlus, prefix: true, arg: i });
    let i = s.id("i");
    let rec = record(&mut s, i);
    let body = s.block(vec![rec]);
    let for_ = s.s(Stmt::For {
        init: Some(ForInit::VarDecl(vec![VarDeclarator { name: i_pat, init: Some(zero) }])),
        test: Some(test),
        update: Some(update),
        body,
    });
    s.run(vec![for_]).unwrap();
    assert_eq!(
        s.host.recorded,
        vec![vec![number(0.0)], vec![number(1.0)], vec![number(2.0)], vec![number(3.0)]]
    );
    assert_eq!(s.interpreter.envs().depth(), base);
    // The counter was declared in the scope the loop stands in.
    assert_eq!(s.variable("i"), number(4.0));
}

#[test]
fn a_variable_declared_in_a_loop_body_lives_for_one_turn() {
    // for (x of [1]) { let inner = x } ; inner is gone afterwards.
    let mut s = Session::new();
    let items = vec![s.num(1.0)];
    let target = s.array(items);
    let x = s.id("x");
    let d = s.let_("inner", x);
    let loop_ = for_of(&mut s, target, vec![d]);
    let inner = s.id("inner");
    let stmt = s.expr_stmt(inner);
    assert_eq!(s.run(vec![loop_, stmt]).unwrap_err().kind, ErrorKind::Name);
}

#[test]
fn an_import_binds_what_it_names() {
    // import def, {answer as a}, * as ns from "pkg"
    let mut s = Session::new();
    let import = s.s(Stmt::Import {
        source: "pkg".to_string(),
        specifiers: vec![
            weblab_interpreter::ast::ImportSpecifier::Default("answer".to_string()),
            weblab_interpreter::ast::ImportSpecifier::Named {
                local: "a".to_string(),
                imported: Some("answer".to_string()),
            },
            weblab_interpreter::ast::ImportSpecifier::Namespace("ns".to_string()),
        ],
    });
    let result = s.run(vec![import]).unwrap();
    assert_eq!(plain(&result), Plain::Undefined);
    assert_eq!(s.host.requests, vec!["import:https://cdn.skypack.dev/pkg", "define:ns"]);
    assert_eq!(s.variable("answer"), number(42.0));
    assert_eq!(s.variable("a"), number(42.0));
    let ns = s.variable("ns");
    assert_eq!(s.property(&ns, "answer"), number(42.0));
}

#[test]
fn an_async_function_gives_a_promise_that_await_resolves() {
    // let f = async function () { 7 }; let p = f(); let v = await p; let u = await 5
    let mut s = Session::new();
    let seven = s.num(7.0);
    let body = s.expr_stmt(seven);
    let body = s.program.add_block(vec![body]);
    let f = s.program.add_function(FunctionDef {
        params: vec![],
        body: Some(body),
        is_async: true,
        source: String::new(),
    });
    let f = s.e(Expr::Fn(f));
    let d = s.let_("f", f);
    let f = s.id("f");
    let call = s.call(f, vec![]);
    let p = s.let_("p", call);
    let pid = s.id("p");
    let awaited = s.e(Expr::Await(pid));
    let v = s.let_("v", awaited);
    let five = s.num(5.0);
    let awaited = s.e(Expr::Await(five));
    let u = s.let_("u", awaited);
    s.run(vec![d, p, v, u]).unwrap();
    assert!(matches!(s.variable("p"), Plain::Object(_)));
    assert_eq!(s.variable("v"), number(7.0));
    assert_eq!(s.variable("u"), Plain::Undefined);
    // An async function has no native form.
    match s.variable("f") {
        Plain::Closure(id) => {
            assert!(s.interpreter.store().closure(id).unwrap().jsfunction.is_none());
            assert!(s.interpreter.store().closure(id).unwrap().async_);
        }
        other => panic!("{:?}", other),
    }
}

#[test]
fn a_member_is_assigned_through_the_host() {
    // let o = {}; o.a = 1; o["b"] = o.a + 1; o.a += 5
    let mut s = Session::new();
    let empty = s.object(vec![]);
    let d = s.let_("o", empty);
    let o = s.id("o");
    let target = s.e(Expr::Member { obj: o, prop: MemberProp::Ident("a".to_string()) });
    let one = s.num(1.0);
    let a1 = s.e(Expr::Assign { op: AssignOp::Assign, left: AssignTarget::Expr(target), right: one });
    let a1 = s.let_("first", a1);
    let o = s.id("o");
    let b = s.text("b");
    let target = s.e(Expr::Member { obj: o, prop: MemberProp::Computed(b) });
    let o = s.id("o");
    let read = s.e(Expr::Member { obj: o, prop: MemberProp::Ident("a".to_string()) });
    let one = s.num(1.0);
    let sum = s.bin(BinaryOp::Add, read, one);
    let a2 = s.e(Expr::Assign { op: AssignOp::Assign, left: AssignTarget::Expr(target), right: sum });
    let a2 = s.expr_stmt(a2);
    let o = s.id("o");
    let target = s.e(Expr::Member { obj: o, prop: MemberProp::Ident("a".to_string()) });
    let five = s.num(5.0);
    let a3 = s.e(Expr::Assign { op: AssignOp::AddAssign, left: AssignTarget::Expr(target), right: five });
    let a3 = s.expr_stmt(a3);
    s.run(vec![d, a1, a2, a3]).unwrap();
    let o = s.variable("o");
    assert_eq!(s.property(&o, "a"), number(6.0));
    assert_eq!(s.property(&o, "b"), number(2.0));
    assert_eq!(s.variable("first"), number(1.0));
}

#[test]
fn a_pattern_can_be_assigned_to() {
    // let a = 0; [a, b] = [1, 2] creates b.
    let mut s = Session::new();
    let zero = s.num(0.0);
    let d = s.let_("a", zero);
    let a = s.p(Pat::Ident("a".to_string()));
    let b = s.p(Pat::Ident("b".to_string()));
    let pattern = s.p(Pat::Array(vec![Some(a), Some(b)]));
    let items = vec![s.num(1.0), s.num(2.0)];
    let right = s.array(items);
    let assign = s.e(Expr::Assign { op: AssignOp::Assign, left: AssignTarget::Pat(pattern), right });
    let stmt = s.let_("result", assign);
    s.run(vec![d, stmt]).unwrap();
    assert_eq!(s.variable("a"), number(1.0));
    assert_eq!(s.variable("b"), number(2.0));
    let result = s.variable("result");
    assert_eq!(s.list(&result), vec![number(1.0), number(2.0)]);
}

#[test]
fn a_sequence_gives_its_last_value_and_if_takes_a_branch() {
    let mut s = Session::new();
    let one = s.num(1.0);
    let two = s.num(2.0);
    let seq = s.e(Expr::Sequence(vec![one, two]));
    let paren = s.e(Expr::Paren(seq));
    let d = s.let_("x", paren);
    let x = s.id("x");
    let t = s.text("yes");
    let yes = s.expr_stmt(t);
    let f = s.text("no");
    let no = s.expr_stmt(f);
    let if_ = s.s(Stmt::If { test: x, cons: yes, alt: Some(no) });
    assert_eq!(plain(&s.run(vec![d, if_]).unwrap()), text("yes"));
    assert_eq!(s.variable("x"), number(2.0));

    let mut s = Session::new();
    let empty = s.text("");
    let t = s.text("yes");
    let yes = s.expr_stmt(t);
    let if_ = s.s(Stmt::If { test: empty, cons: yes, alt: None });
    assert_eq!(plain(&s.run(vec![if_]).unwrap()), Plain::Undefined);
}

#[test]
fn the_value_of_a_program_is_that_of_its_last_statement() {
    let mut s = Session::new();
    assert_eq!(plain(&s.run(vec![]).unwrap()), Plain::Undefined);
    let one = s.num(1.0);
    let d = s.let_("x", one);
    assert_eq!(plain(&s.run(vec![d]).unwrap()), Plain::Undefined);
    let empty = s.s(Stmt::Empty);
    assert_eq!(plain(&s.run(vec![empty]).unwrap()), Plain::Null);
    let ret = s.s(Stmt::Return(None));
    assert_eq!(plain(&s.run(vec![ret]).unwrap()), Plain::Null);
    // What one cell declared is there for the next.
    let x = s.id("x");
    let stmt = s.expr_stmt(x);
    assert_eq!(plain(&s.run(vec![stmt]).unwrap()), number(1.0));
}

#[test]
fn a_function_declaration_binds_its_name() {
    // function twice(a) { a * 2 } twice(4)
    let mut s = Session::new();
    let a = s.id("a");
    let two = s.num(2.0);
    let product = s.bin(BinaryOp::Mul, a, two);
    let body = s.expr_stmt(product);
    let body = s.program.add_block(vec![body]);
    let a = s.p(Pat::Ident("a".to_string()));
    let f = s.program.add_function(FunctionDef {
        params: vec![a],
        body: Some(body),
        is_async: false,
        source: "return weblab_a * 2;".to_string(),
    });
    let decl = s.s(Stmt::Decl(Decl::Fn { ident: "twice".to_string(), function: f }));
    let twice = s.id("twice");
    let four = s.num(4.0);
    let call = s.call(twice, vec![four]);
    let stmt = s.expr_stmt(call);
    assert_eq!(plain(&s.run(vec![decl, stmt]).unwrap()), number(8.0));

    // A function without a body can not be made.
    let f = s.program.add_function(FunctionDef {
        params: vec![],
        body: None,
        is_async: false,
        source: String::new(),
    });
    let e = s.e(Expr::Arrow(f));
    let stmt = s.expr_stmt(e);
    assert_eq!(s.run(vec![stmt]).unwrap_err().kind, ErrorKind::Type);
}

#[test]
fn a_default_parameter_is_evaluated_when_the_function_is_made() {
    // let k = 1; let f = function (a, b = k + 1) {}; the snapshot binds b to 2.
    let mut s = Session::new();
    let one = s.num(1.0);
    let d = s.let_("k", one);
    let k = s.id("k");
    let one = s.num(1.0);
    let sum = s.bin(BinaryOp::Add, k, one);
    let a = s.p(Pat::Ident("a".to_string()));
    let b = s.p(Pat::Ident("b".to_string()));
    let b = s.p(Pat::Assign { left: b, right: sum });
    let body = s.program.add_block(vec![]);
    let f = s.program.add_function(FunctionDef {
        params: vec![a, b],
        body: Some(body),
        is_async: false,
        source: String::new(),
    });
    let f = s.e(Expr::Fn(f));
    let stmt = s.let_("f", f);
    s.run(vec![d, stmt]).unwrap();
    match s.variable("f") {
        Plain::Closure(id) => {
            let closure = s.interpreter.store().closure(id).unwrap();
            assert_eq!(closure.args, vec!["a", "b"]);
            match closure.env.get("b") {
                Lookup::Bound(cell) => {
                    assert_eq!(plain(s.interpreter.store().read(cell).unwrap()), number(2.0))
                }
                other => panic!("{:?}", other),
            }
            assert_eq!(closure.env.get("a"), Lookup::Absent);
        }
        other => panic!("{:?}", other),
    }
}

#[test]
fn a_session_can_be_reset() {
    let mut s = Session::new();
    let one = s.num(1.0);
    let d = s.let_("x", one);
    s.run(vec![d]).unwrap();
    assert_eq!(s.variable("x"), number(1.0));
    let global = s.host.object();
    let document = s.host.object();
    s.interpreter.reset_envs(global, document).unwrap();
    assert_eq!(s.interpreter.envs().get("x"), Lookup::Absent);
    assert_eq!(s.interpreter.envs().depth(), 1);
    let x = s.id("x");
    let stmt = s.expr_stmt(x);
    let block = s.program.add_block(vec![stmt]);
    s.interpreter.eval_module(block).unwrap();
    assert_eq!(s.interpreter.eval_module(block).unwrap_err().kind, ErrorKind::Protocol);
    let g = s.host.object();
    let dd = s.host.object();
    assert_eq!(s.interpreter.reset_envs(g, dd).unwrap_err().kind, ErrorKind::Protocol);
}

#[test]
fn a_failure_of_the_host_can_be_caught() {
    // try { (5).x = 1 } catch (e) { caught = 1 }
    let mut s = Session::new();
    let zero = s.num(0.0);
    let d = s.let_("caught", zero);
    let five = s.num(5.0);
    let target = s.e(Expr::Member { obj: five, prop: MemberProp::Ident("x".to_string()) });
    let one = s.num(1.0);
    let assign =
        s.e(Expr::Assign { op: AssignOp::Assign, left: AssignTarget::Expr(target), right: one });
    let stmt = s.expr_stmt(assign);
    let block = s.program.add_block(vec![stmt]);
    let one = s.num(1.0);
    let mark = s.assign("caught", one);
    let mark = s.expr_stmt(mark);
    let handler = s.program.add_block(vec![mark]);
    let e = s.p(Pat::Ident("e".to_string()));
    let try_ = s.s(Stmt::Try { block, handler: Some(CatchClause { param: Some(e), body: handler }) });
    s.run(vec![d, try_]).unwrap();
    assert_eq!(s.variable("caught"), number(1.0));

    // Without a handler the failure goes on.
    let mut s = Session::new();
    let five = s.num(5.0);
    let target = s.e(Expr::Member { obj: five, prop: MemberProp::Ident("x".to_string()) });
    let one = s.num(1.0);
    let assign =
        s.e(Expr::Assign { op: AssignOp::Assign, left: AssignTarget::Expr(target), right: one });
    let stmt = s.expr_stmt(assign);
    let block = s.program.add_block(vec![stmt]);
    let try_ = s.s(Stmt::Try { block, handler: None });
    assert_eq!(s.run(vec![try_]).unwrap_err().kind, ErrorKind::Host);
}

// ---------------------------------------------------------------------------
// Questions to the host.
// ---------------------------------------------------------------------------

#[test]
fn a_template_asks_the_host_for_the_text_of_other_values() {
    // `n=${1.5}, o=${null}`
    let mut s = Session::new();
    let n = s.num(1.5);
    let o = s.e(Expr::Lit(Lit::Null));
    let tpl = s.e(Expr::Tpl {
        quasis: vec![
            Quasi { text: "n=".to_string(), tail: false },
            Quasi { text: ", o=".to_string(), tail: false },
            Quasi { text: String::new(), tail: true },
        ],
        exprs: vec![n, o],
    });
    let stmt = s.expr_stmt(tpl);
    assert_eq!(plain(&s.run(vec![stmt]).unwrap()), text("n=1.5, o=null"));
}

#[test]
fn unary_plus_coerces_text_through_the_host() {
    let mut s = Session::new();
    let t = s.text(" 12 ");
    let e = s.e(Expr::Unary { op: UnaryOp::Plus, arg: t });
    let stmt = s.expr_stmt(e);
    assert_eq!(plain(&s.run(vec![stmt]).unwrap()), number(12.0));

    let mut s = Session::new();
    let t = s.boolean(true);
    let e = s.e(Expr::Unary { op: UnaryOp::Plus, arg: t });
    let minus = s.e(Expr::Unary { op: UnaryOp::Minus, arg: e });
    let stmt = s.expr_stmt(minus);
    assert_eq!(plain(&s.run(vec![stmt]).unwrap()), number(-1.0));
    assert!(s.host.requests.is_empty());
}

#[test]
fn in_and_instanceof_are_answered_by_the_host() {
    // "a" in {a: 1} is not supported: the object stands on the left.
    let mut s = Session::new();
    let one = s.num(1.0);
    let o = s.object(vec![("a", one)]);
    let a = s.text("a");
    let e = s.bin(BinaryOp::In, o, a);
    let stmt = s.expr_stmt(e);
    assert_eq!(plain(&s.run(vec![stmt]).unwrap()), Plain::Bool(true));

    let mut s = Session::new();
    let one = s.num(1.0);
    let o = s.object(vec![("a", one)]);
    let b = s.text("b");
    let e = s.bin(BinaryOp::In, o, b);
    let stmt = s.expr_stmt(e);
    assert_eq!(plain(&s.run(vec![stmt]).unwrap()), Plain::Bool(false));

    let mut s = Session::new();
    let a = s.text("a");
    let o = s.object(vec![]);
    let e = s.bin(BinaryOp::In, a, o);
    let stmt = s.expr_stmt(e);
    assert_eq!(s.run(vec![stmt]).unwrap_err().kind, ErrorKind::Type);

    // {} instanceof {} asks for the constructor that stands for objects.
    let mut s = Session::new();
    let l = s.object(vec![]);
    let r = s.object(vec![]);
    let e = s.bin(BinaryOp::InstanceOf, l, r);
    let stmt = s.expr_stmt(e);
    assert_eq!(plain(&s.run(vec![stmt]).unwrap()), Plain::Bool(true));

    let mut s = Session::new();
    let l = s.num(1.0);
    let r = s.id("console");
    let e = s.bin(BinaryOp::InstanceOf, l, r);
    let stmt = s.expr_stmt(e);
    assert_eq!(plain(&s.run(vec![stmt]).unwrap()), Plain::Bool(false));
}

#[test]
fn equality_of_a_string_and_a_number_parses_the_string() {
    let mut s = Session::new();
    let l = s.text("2.5");
    let r = s.num(2.5);
    let e = s.bin(BinaryOp::EqEq, l, r);
    let stmt = s.expr_stmt(e);
    assert_eq!(plain(&s.run(vec![stmt]).unwrap()), Plain::Bool(true));

    let mut s = Session::new();
    let l = s.num(2.5);
    let r = s.text("2.5");
    let e = s.bin(BinaryOp::NotEq, l, r);
    let stmt = s.expr_stmt(e);
    assert_eq!(plain(&s.run(vec![stmt]).unwrap()), Plain::Bool(false));

    let mut s = Session::new();
    let l = s.text("two");
    let r = s.num(2.0);
    let e = s.bin(BinaryOp::EqEq, l, r);
    let stmt = s.expr_stmt(e);
    assert_eq!(s.run(vec![stmt]).unwrap_err().kind, ErrorKind::Type);

    let mut s = Session::new();
    let l = s.text("2");
    let r = s.num(2.0);
    let e = s.bin(BinaryOp::EqEqEq, l, r);
    let stmt = s.expr_stmt(e);
    assert_eq!(plain(&s.run(vec![stmt]).unwrap()), Plain::Bool(false));
}

#[test]
fn patterns_nest() {
    // let {a: [x, {y}], ["k" + "1"]: z, ...others} = {a: [1, {y: 2}], k1: 3, w: 4}
    let mut s = Session::new();
    let one = s.num(1.0);
    let two = s.num(2.0);
    let inner = s.object(vec![("y", two)]);
    let list = s.array(vec![one, inner]);
    let three = s.num(3.0);
    let four = s.num(4.0);
    let right = s.object(vec![("a", list), ("k1", three), ("w", four)]);
    let x = s.p(Pat::Ident("x".to_string()));
    let y = s.p(Pat::Object(vec![ObjectPatProp::Assign { key: "y".to_string(), value: None }]));
    let a = s.p(Pat::Array(vec![Some(x), Some(y)]));
    let k = s.text("k");
    let n = s.text("1");
    let key = s.bin(BinaryOp::Add, k, n);
    let z = s.p(Pat::Ident("z".to_string()));
    let others = s.p(Pat::Ident("others".to_string()));
    let pattern = s.p(Pat::Object(vec![
        ObjectPatProp::KeyValue { key: PropName::Ident("a".to_string()), value: a },
        ObjectPatProp::KeyValue { key: PropName::Computed(key), value: z },
        ObjectPatProp::Rest(others),
    ]));
    let d = s.let_pat(pattern, Some(right));
    s.run(vec![d]).unwrap();
    assert_eq!(s.variable("x"), number(1.0));
    assert_eq!(s.variable("y"), number(2.0));
    assert_eq!(s.variable("z"), number(3.0));
    let others = s.variable("others");
    assert_eq!(s.property(&others, "w"), number(4.0));
    assert_eq!(s.property(&others, "a"), Plain::Undefined);
    assert_eq!(s.property(&others, "k1"), Plain::Undefined);
}

#[test]
fn an_update_of_a_member_goes_through_the_host() {
    // let o = {n: 1}; let old = o.n++; let now = ++o.n
    let mut s = Session::new();
    let one = s.num(1.0);
    let literal = s.object(vec![("n", one)]);
    let d = s.let_("o", literal);
    let o = s.id("o");
    let member = s.e(Expr::Member { obj: o, prop: MemberProp::Ident("n".to_string()) });
    let post = s.e(Expr::Update { op: UpdateOp::PlusPlus, prefix: false, arg: member });
    let a = s.let_("old", post);
    let o = s.id("o");
    let member = s.e(Expr::Member { obj: o, prop: MemberProp::Ident("n".to_string()) });
    let pre = s.e(Expr::Update { op: UpdateOp::PlusPlus, prefix: true, arg: member });
    let b = s.let_("now", pre);
    s.run(vec![d, a, b]).unwrap();
    assert_eq!(s.variable("old"), number(1.0));
    assert_eq!(s.variable("now"), number(3.0));
    let o = s.variable("o");
    assert_eq!(s.property(&o, "n"), number(3.0));
}

#[test]
fn a_closure_can_call_a_closure() {
    // let add = function (a, b) { a + b }; let inc = function (x) { add(x, 1) }; inc(41)
    let mut s = Session::new();
    let a = s.id("a");
    let b = s.id("b");
    let sum = s.bin(BinaryOp::Add, a, b);
    let body = s.expr_stmt(sum);
    let add = s.function(vec!["a", "b"], vec![body], "return weblab_a + weblab_b;");
    let d1 = s.let_("add", add);
    let callee = s.id("add");
    let x = s.id("x");
    let one = s.num(1.0);
    let call = s.call(callee, vec![x, one]);
    let body = s.expr_stmt(call);
    let inc = s.function(vec!["x"], vec![body], "return weblab_add(weblab_x, 1);");
    let d2 = s.let_("inc", inc);
    let callee = s.id("inc");
    let n = s.num(41.0);
    let call = s.call(callee, vec![n]);
    let stmt = s.expr_stmt(call);
    let base = s.interpreter.envs().depth();
    assert_eq!(plain(&s.run(vec![d1, d2, stmt]).unwrap()), number(42.0));
    assert_eq!(s.interpreter.envs().depth(), base);
    // The native form of `inc` binds `add` as it was when `inc` was made.
    let compiled: Vec<(Vec<String>, usize)> = s
        .host
        .table
        .iter()
        .filter_map(|entry| match &entry.kind {
            Kind::Compiled { params, bound, .. } => Some((params.clone(), *bound)),
            _ => None,
        })
        .collect();
    assert_eq!(compiled.len(), 2);
    assert_eq!(compiled[1].0, vec!["weblab_add", "weblab_x"]);
    assert_eq!(compiled[1].1, 1);
}

#[test]
fn a_regular_expression_literal_is_made_by_the_host() {
    let mut s = Session::new();
    let e = s.e(Expr::Lit(Lit::Regex { exp: "a+".to_string(), flags: "g".to_string() }));
    let stmt = s.expr_stmt(e);
    assert!(matches!(plain(&s.run(vec![stmt]).unwrap()), Plain::Object(_)));
    let mut s = Session::new();
    let e = s.e(Expr::Lit(Lit::Unsupported("1n".to_string())));
    let stmt = s.expr_stmt(e);
    assert_eq!(s.run(vec![stmt]).unwrap_err().kind, ErrorKind::Syntax);
}

#[test]
fn a_declaration_without_declarators_fails() {
    let mut s = Session::new();
    let d = s.s(Stmt::Decl(Decl::Var(vec![])));
    assert_eq!(s.run(vec![d]).unwrap_err().kind, ErrorKind::Reference);
}

#[test]
fn a_number_on_the_left_of_a_string_keeps_the_left_side() {
    // 5 - "3", 7 / "2", 7 % "4"
    for (op, left, right, expected) in [
        (BinaryOp::Sub, 5.0, "3", 2.0),
        (BinaryOp::Div, 7.0, "2", 3.5),
        (BinaryOp::Mod, 7.0, "4", 3.0),
        (BinaryOp::Mul, 2.0, "4", 8.0),
    ] {
        let mut s = Session::new();
        let l = s.num(left);
        let r = s.text(right);
        let e = s.bin(op, l, r);
        let stmt = s.expr_stmt(e);
        assert_eq!(plain(&s.run(vec![stmt]).unwrap()), number(expected));
    }
    // "7" - 5, "7" / 2
    for (op, left, right, expected) in
        [(BinaryOp::Sub, "7", 5.0, 2.0), (BinaryOp::Div, "7", 2.0, 3.5)]
    {
        let mut s = Session::new();
        let l = s.text(left);
        let r = s.num(right);
        let e = s.bin(op, l, r);
        let stmt = s.expr_stmt(e);
        assert_eq!(plain(&s.run(vec![stmt]).unwrap()), number(expected));
    }
}

#[test]
fn a_shorthand_default_is_taken_only_for_a_key_that_is_undefined() {
    // let {x = 5, y = 6, ...rest} = {x: 1, z: 3}
    let mut s = Session::new();
    let one = s.num(1.0);
    let three = s.num(3.0);
    let right = s.object(vec![("x", one), ("z", three)]);
    let five = s.num(5.0);
    let six = s.num(6.0);
    let rest = s.p(Pat::Ident("rest".to_string()));
    let pattern = s.p(Pat::Object(vec![
        ObjectPatProp::Assign { key: "x".to_string(), value: Some(five) },
        ObjectPatProp::Assign { key: "y".to_string(), value: Some(six) },
        ObjectPatProp::Rest(rest),
    ]));
    let d = s.let_pat(pattern, Some(right));
    s.run(vec![d]).unwrap();
    assert_eq!(s.variable("x"), number(1.0));
    assert_eq!(s.variable("y"), number(6.0));
    let rest = s.variable("rest");
    assert_eq!(s.property(&rest, "x"), Plain::Undefined);
    assert_eq!(s.property(&rest, "z"), number(3.0));

    // ({x = 5} = {x: 2}), by assignment
    let mut s = Session::new();
    let zero = s.num(0.0);
    let d = s.let_("x", zero);
    let two = s.num(2.0);
    let right = s.object(vec![("x", two)]);
    let five = s.num(5.0);
    let pattern = s.p(Pat::Object(vec![ObjectPatProp::Assign {
        key: "x".to_string(),
        value: Some(five),
    }]));
    let e = s.e(Expr::Assign { op: AssignOp::Assign, left: AssignTarget::Pat(pattern), right });
    let stmt = s.expr_stmt(e);
    s.run(vec![d, stmt]).unwrap();
    assert_eq!(s.variable("x"), number(2.0));
}

#[test]
fn a_class_extends_an_interpreted_function_with_or_without_a_native_form() {
    for is_async in [false, true] {
        let mut s = Session::new();
        let body = s.program.add_block(vec![]);
        let f = s.program.add_function(FunctionDef {
            params: vec![],
            body: Some(body),
            is_async,
            source: String::new(),
        });
        let f = s.e(Expr::Fn(f));
        let d = s.let_("f", f);
        let parent = s.id("f");
        let class = s.program.add_class(weblab_interpreter::ast::Class {
            super_class: Some(parent),
            body: vec![],
        });
        let e = s.e(Expr::Class(class));
        let stmt = s.expr_stmt(e);
        s.run(vec![d, stmt]).unwrap();
        let closure = s.variable("f");
        assert!(matches!(closure, Plain::Closure(_)));
        assert_eq!(s.host.parents, vec![Some(closure)]);
    }
}

#[test]
fn a_class_member_of_another_kind_is_refused() {
    let mut s = Session::new();
    let class = s.program.add_class(weblab_interpreter::ast::Class {
        super_class: None,
        body: vec![weblab_interpreter::ast::ClassMember::Other],
    });
    let e = s.e(Expr::Class(class));
    let stmt = s.expr_stmt(e);
    assert_eq!(s.run(vec![stmt]).unwrap_err().kind, ErrorKind::Syntax);
    assert!(s.host.parents.is_empty());
}

#[test]
fn a_catch_parameter_that_is_no_identifier_is_refused() {
    // try { throw "boom" } catch ([a]) { }
    let mut s = Session::new();
    let base = s.interpreter.envs().depth();
    let boom = s.text("boom");
    let throw = s.s(Stmt::Throw(boom));
    let block = s.program.add_block(vec![throw]);
    let handler = s.program.add_block(vec![]);
    let a = s.p(Pat::Ident("a".to_string()));
    let param = s.p(Pat::Array(vec![Some(a)]));
    let try_ = s.s(Stmt::Try {
        block,
        handler: Some(CatchClause { param: Some(param), body: handler }),
    });
    assert_eq!(s.run(vec![try_]).unwrap_err().kind, ErrorKind::Syntax);
    assert_eq!(s.interpreter.envs().depth(), base);

    // try { throw "boom" } catch { 1 }
    let mut s = Session::new();
    let boom = s.text("boom");
    let throw = s.s(Stmt::Throw(boom));
    let block = s.program.add_block(vec![throw]);
    let one = s.num(1.0);
    let one = s.expr_stmt(one);
    let handler = s.program.add_block(vec![one]);
    let try_ = s.s(Stmt::Try { block, handler: Some(CatchClause { param: None, body: handler }) });
    s.run(vec![try_]).unwrap();
}

#[test]
fn a_global_name_that_the_host_lacks_is_not_found() {
    // The host of these tests has `console` and `undefined`, and nothing else.
    let mut s = Session::new();
    let e = s.id("Math");
    let stmt = s.expr_stmt(e);
    let error = s.run(vec![stmt]).unwrap_err();
    assert_eq!(error.kind, ErrorKind::Name);
    assert_eq!(error.message, "ERROR: Variable not found: Math");

    let mut s = Session::new();
    let e = s.id("console");
    let stmt = s.expr_stmt(e);
    assert!(matches!(plain(&s.run(vec![stmt]).unwrap()), Plain::Native(_)));

    // A name outside the allowed ones is not even asked for.
    let mut s = Session::new();
    let global = Value::Object(0);
    s.host.set(&global, &Value::String(String::from("secret")), Value::Bool(true));
    let e = s.id("secret");
    let stmt = s.expr_stmt(e);
    assert_eq!(s.run(vec![stmt]).unwrap_err().kind, ErrorKind::Name);
}

#[test]
fn a_compound_assignment_keeps_the_variable_on_the_left() {
    // let x = 5; x -= "3"; let y = 7; y /= "2"; let z = 7; z %= "4"
    for (op, start, right, expected) in [
        (AssignOp::SubAssign, 5.0, "3", 2.0),
        (AssignOp::DivAssign, 7.0, "2", 3.5),
        (AssignOp::ModAssign, 7.0, "4", 3.0),
    ] {
        let mut s = Session::new();
        let start = s.num(start);
        let d = s.let_("x", start);
        let x = s.id("x");
        let right = s.text(right);
        let e = s.e(Expr::Assign { op, left: AssignTarget::Expr(x), right });
        let stmt = s.expr_stmt(e);
        s.run(vec![d, stmt]).unwrap();
        assert_eq!(s.variable("x"), number(expected));
    }
}
