use vstd::prelude::*;

verus! {

/// A type in a function signature or binding.
#[derive(Debug)]
pub enum Type {
    U32,
    U64,
    F32,
    String,
    Bool,
    Result(Box<Type>, Box<Type>),
    Custom(String),
    Unit,
}

/// An expression.
#[derive(Debug)]
pub enum Expression {
    Binary { left: Box<Expression>, op: String, right: Box<Expression> },
    Number(u64),
    Identifier(String),
    Call { name: String, args: Vec<Expression> },
}

/// A statement of a function body.
#[derive(Debug)]
pub enum Statement {
    Let { name: String, ty: Type, value: Expression },
    Return(Expression),
    If { condition: Expression, then_block: Vec<Statement>, else_block: Option<Vec<Statement>> },
}

/// A function parameter.
#[derive(Debug)]
pub struct Param {
    pub name: String,
    pub ty: Type,
}

/// A function definition.
#[derive(Debug)]
pub struct Function {
    pub name: String,
    pub params: Vec<Param>,
    pub ret_type: Type,
    pub body: Vec<Statement>,
}

/// The mathematical value of a [`Type`].
pub enum TypeView {
    U32,
    U64,
    F32,
    Str,
    Bool,
    Result(Box<TypeView>, Box<TypeView>),
    Custom(Seq<char>),
    Unit,
}

/// The mathematical value of an [`Expression`].
pub enum ExprView {
    Binary { left: Box<ExprView>, op: Seq<char>, right: Box<ExprView> },
    Number(u64),
    Identifier(Seq<char>),
    Call { name: Seq<char>, args: Seq<ExprView> },
}

/// The mathematical value of a [`Statement`].
pub enum StmtView {
    Let { name: Seq<char>, ty: TypeView, value: ExprView },
    Return(ExprView),
    If { condition: ExprView, then_block: Seq<StmtView>, else_block: Option<Seq<StmtView>> },
}

/// The mathematical value of a [`Param`].
pub struct ParamView {
    pub name: Seq<char>,
    pub ty: TypeView,
}

/// The mathematical value of a [`Function`].
pub struct FunctionView {
    pub name: Seq<char>,
    pub params: Seq<ParamView>,
    pub ret_type: TypeView,
    pub body: Seq<StmtView>,
}

impl Type {
    /// The mathematical value of this type.
    pub open spec fn model(&self) -> TypeView
        decreases self,
    {
        match self {
            Type::U32 => TypeView::U32,
            Type::U64 => TypeView::U64,
            Type::F32 => TypeView::F32,
            Type::String => TypeView::Str,
            Type::Bool => TypeView::Bool,
            Type::Result(a, b) => TypeView::Result(Box::new(a.model()), Box::new(b.model())),
            Type::Custom(s) => TypeView::Custom(s@),
            Type::Unit => TypeView::Unit,
        }
    }
}

impl Type {
    /// A copy of this type.
    fn copy_type(&self) -> (res: Type)
        ensures
            res@ == self@,
        decreases self,
    {
        match self {
            Type::U32 => Type::U32,
            Type::U64 => Type::U64,
            Type::F32 => Type::F32,
            Type::String => Type::String,
            Type::Bool => Type::Bool,
            Type::Result(a, b) => {
                let a2 = a.copy_type();
                let b2 = b.copy_type();
                Type::Result(Box::new(a2), Box::new(b2))
            },
            Type::Custom(s) => Type::Custom(s.clone()),
            Type::Unit => Type::Unit,
        }
    }
}

impl Clone for Type {
    fn clone(&self) -> (res: Self)
        ensures
            res@ == self@,
    {
        self.copy_type()
    }
}

impl View for Type {
    type V = TypeView;

    open spec fn view(&self) -> TypeView {
        self.model()
    }
}

/// The views of a sequence of expressions.
pub open spec fn exprs_view(s: Seq<Expression>) -> Seq<ExprView>
    decreases s,
{
    if s.len() == 0 {
        Seq::empty()
    } else {
        exprs_view(s.subrange(0, s.len() - 1)).push(s[s.len() - 1].model())
    }
}

impl Expression {
    /// The mathematical value of this expression.
    pub open spec fn model(&self) -> ExprView
        decreases self,
    {
        match self {
            Expression::Binary { left, op, right } => ExprView::Binary {
                left: Box::new(left.model()),
                op: op@,
                right: Box::new(right.model()),
            },
            Expression::Number(n) => ExprView::Number(*n),
            Expression::Identifier(s) => ExprView::Identifier(s@),
            Expression::Call { name, args } => ExprView::Call { name: name@, args: exprs_view(args@) },
        }
    }
}

impl View for Expression {
    type V = ExprView;

    open spec fn view(&self) -> ExprView {
        self.model()
    }
}

/// The views of a sequence of statements.
pub open spec fn stmts_view(s: Seq<Statement>) -> Seq<StmtView>
    decreases s,
{
    if s.len() == 0 {
        Seq::empty()
    } else {
        stmts_view(s.subrange(0, s.len() - 1)).push(s[s.len() - 1].model())
    }
}

impl Statement {
    /// The mathematical value of this statement.
    pub open spec fn model(&self) -> StmtView
        decreases self,
    {
        match self {
            Statement::Let { name, ty, value } => StmtView::Let {
                name: name@,
                ty: ty@,
                value: value@,
            },
            Statement::Return(e) => StmtView::Return(e@),
            Statement::If { condition, then_block, else_block } => StmtView::If {
                condition: condition@,
                then_block: stmts_view(then_block@),
                else_block: match else_block {
                    Some(b) => Some(stmts_view(b@)),
                    None => None,
                },
            },
        }
    }
}

impl View for Statement {
    type V = StmtView;

    open spec fn view(&self) -> StmtView {
        self.model()
    }
}

impl View for Param {
    type V = ParamView;

    open spec fn view(&self) -> ParamView {
        ParamView { name: self.name@, ty: self.ty@ }
    }
}

/// The views of a sequence of parameters.
pub open spec fn params_view(s: Seq<Param>) -> Seq<ParamView> {
    s.map_values(|p: Param| p@)
}

impl View for Function {
    type V = FunctionView;

    open spec fn view(&self) -> FunctionView {
        FunctionView {
            name: self.name@,
            params: params_view(self.params@),
            ret_type: self.ret_type@,
            body: stmts_view(self.body@),
        }
    }
}

} // verus!
