//! The check that every system function called is a recognized one.
use vstd::prelude::*;
use crate::analyzer_error::AnalyzerError;
use crate::syntax::ExpressionIdentifier;

verus! {

/// The two moments at which a handler sees a node: before its children
/// are visited, and after.
#[derive(Clone, Copy, Debug, PartialEq, Eq, Structural)]
pub enum HandlerPoint {
    Before,
    After,
}

/// The built-in system tasks and functions of the target language's
/// standard (its clauses on system tasks and functions).
pub open spec fn defined_system_functions() -> Seq<&'static str> {
    system_functions_0() + system_functions_1() + system_functions_2() + system_functions_3() + system_functions_4() + system_functions_5() + system_functions_6()
}

pub open spec fn system_functions_0() -> Seq<&'static str> {
    seq![
        "$acos",
        "$acosh",
        "$asin",
        "$asinh",
        "$assertcontrol",
        "$assertfailoff",
        "$assertfailon",
        "$assertkill",
        "$assertnonvacuouson",
        "$assertoff",
        "$asserton",
        "$assertpassoff",
        "$assertpasson",
        "$assertvacuousoff",
        "$async$and$array",
        "$async$and$plane",
        "$async$nand$array",
        "$async$nand$plane",
        "$async$nor$array",
        "$async$nor$plane",
        "$async$or$array",
        "$async$or$plane",
        "$atan",
        "$atan2",
        "$atanh",
        "$bits",
        "$bitstoreal",
        "$bitstoshortreal",
    ]
}

pub open spec fn system_functions_1() -> Seq<&'static str> {
    seq![
        "$cast",
        "$ceil",
        "$changed",
        "$changed_gclk",
        "$changing_gclk",
        "$clog2",
        "$cos",
        "$cosh",
        "$countbits",
        "$countones",
        "$coverage_control",
        "$coverage_get",
        "$coverage_get_max",
        "$coverage_merge",
        "$coverage_save",
        "$dimensions",
        "$display",
        "$displayb",
        "$displayh",
        "$displayo",
        "$dist_chi_square",
        "$dist_erlang",
        "$dist_exponential",
        "$dist_normal",
        "$dist_poisson",
        "$dist_t",
        "$dist_uniform",
        "$dumpall",
    ]
}

pub open spec fn system_functions_2() -> Seq<&'static str> {
    seq![
        "$dumpfile",
        "$dumpflush",
        "$dumplimit",
        "$dumpoff",
        "$dumpon",
        "$dumpports",
        "$dumpportsall",
        "$dumpportsflush",
        "$dumpportslimit",
        "$dumpportsoff",
        "$dumpportson",
        "$dumpvars",
        "$error",
        "$exit",
        "$exp",
        "$falling_gclk",
        "$fatal",
        "$fclose",
        "$fdisplay",
        "$fdisplayb",
        "$fdisplayh",
        "$fdisplayo",
        "$fell",
        "$fell_gclk",
        "$feof",
        "$ferror",
        "$fflush",
        "$fgetc",
    ]
}

pub open spec fn system_functions_3() -> Seq<&'static str> {
    seq![
        "$fgets",
        "$finish",
        "$floor",
        "$fmonitor",
        "$fmonitorb",
        "$fmonitorh",
        "$fmonitoro",
        "$fopen",
        "$fread",
        "$fscanf",
        "$fseek",
        "$fstrobe",
        "$fstrobeb",
        "$fstrobeh",
        "$fstrobeo",
        "$ftell",
        "$future_gclk",
        "$fwrite",
        "$fwriteb",
        "$fwriteh",
        "$fwriteo",
        "$get_coverage",
        "$high",
        "$hypot",
        "$increment",
        "$info",
        "$isunbounded",
        "$isunknown",
    ]
}

pub open spec fn system_functions_4() -> Seq<&'static str> {
    seq![
        "$itor",
        "$left",
        "$ln",
        "$load_coverage_db",
        "$log10",
        "$low",
        "$monitor",
        "$monitorb",
        "$monitorh",
        "$monitoro",
        "$monitoroff",
        "$monitoron",
        "$onehot",
        "$onehot0",
        "$past",
        "$past_gclk",
        "$pow",
        "$printtimescale",
        "$q_add",
        "$q_exam",
        "$q_full",
        "$q_initialize",
        "$q_remove",
        "$random",
        "$readmemb",
        "$readmemh",
        "$realtime",
        "$realtobits",
    ]
}

pub open spec fn system_functions_5() -> Seq<&'static str> {
    seq![
        "$rewind",
        "$right",
        "$rising_gclk",
        "$rose",
        "$rose_gclk",
        "$rtoi",
        "$sampled",
        "$set_coverage_db_name",
        "$sformat",
        "$sformatf",
        "$shortrealtobits",
        "$signed",
        "$sin",
        "$sinh",
        "$size",
        "$sqrt",
        "$sscanf",
        "$stable",
        "$stable_gclk",
        "$steady_gclk",
        "$stime",
        "$stop",
        "$strobe",
        "$strobeb",
        "$strobeh",
        "$strobeo",
        "$swrite",
        "$swriteb",
    ]
}

pub open spec fn system_functions_6() -> Seq<&'static str> {
    seq![
        "$swriteh",
        "$swriteo",
        "$sync$and$array",
        "$sync$and$plane",
        "$sync$nand$array",
        "$sync$nand$plane",
        "$sync$nor$array",
        "$sync$nor$plane",
        "$sync$or$array",
        "$sync$or$plane",
        "$system",
        "$tan",
        "$tanh",
        "$test$plusargs",
        "$time",
        "$timeformat",
        "$typename",
        "$ungetc",
        "$unpacked_dimensions",
        "$unsigned",
        "$value$plusargs",
        "$warning",
        "$write",
        "$writeb",
        "$writeh",
        "$writememb",
        "$writememh",
        "$writeo",
    ]
}

/// `name` is a recognized system function.
pub open spec fn is_defined_system_function(name: Seq<char>) -> bool {
    exists|i: int| 0 <= i < defined_system_functions().len() && #[trigger] defined_system_functions()[i]@ == name
}

fn system_function_table_0() -> (r: Vec<&'static str>)
    ensures
        r@ == system_functions_0(),
{
    let mut v: Vec<&'static str> = Vec::new();
    v.push("$acos");
    v.push("$acosh");
    v.push("$asin");
    v.push("$asinh");
    v.push("$assertcontrol");
    v.push("$assertfailoff");
    v.push("$assertfailon");
    v.push("$assertkill");
    v.push("$assertnonvacuouson");
    v.push("$assertoff");
    v.push("$asserton");
    v.push("$assertpassoff");
    v.push("$assertpasson");
    v.push("$assertvacuousoff");
    v.push("$async$and$array");
    v.push("$async$and$plane");
    v.push("$async$nand$array");
    v.push("$async$nand$plane");
    v.push("$async$nor$array");
    v.push("$async$nor$plane");
    v.push("$async$or$array");
    v.push("$async$or$plane");
    v.push("$atan");
    v.push("$atan2");
    v.push("$atanh");
    v.push("$bits");
    v.push("$bitstoreal");
    v.push("$bitstoshortreal");
    v
}

fn system_function_table_1() -> (r: Vec<&'static str>)
    ensures
        r@ == system_functions_1(),
{
    let mut v: Vec<&'static str> = Vec::new();
    v.push("$cast");
    v.push("$ceil");
    v.push("$changed");
    v.push("$changed_gclk");
    v.push("$changing_gclk");
    v.push("$clog2");
    v.push("$cos");
    v.push("$cosh");
    v.push("$countbits");
    v.push("$countones");
    v.push("$coverage_control");
    v.push("$coverage_get");
    v.push("$coverage_get_max");
    v.push("$coverage_merge");
    v.push("$coverage_save");
    v.push("$dimensions");
    v.push("$display");
    v.push("$displayb");
    v.push("$displayh");
    v.push("$displayo");
    v.push("$dist_chi_square");
    v.push("$dist_erlang");
    v.push("$dist_exponential");
    v.push("$dist_normal");
    v.push("$dist_poisson");
    v.push("$dist_t");
    v.push("$dist_uniform");
    v.push("$dumpall");
    v
}

fn system_function_table_2() -> (r: Vec<&'static str>)
    ensures
        r@ == system_functions_2(),
{
    let mut v: Vec<&'static str> = Vec::new();
    v.push("$dumpfile");
    v.push("$dumpflush");
    v.push("$dumplimit");
    v.push("$dumpoff");
    v.push("$dumpon");
    v.push("$dumpports");
    v.push("$dumpportsall");
    v.push("$dumpportsflush");
    v.push("$dumpportslimit");
    v.push("$dumpportsoff");
    v.push("$dumpportson");
    v.push("$dumpvars");
    v.push("$error");
    v.push("$exit");
    v.push("$exp");
    v.push("$falling_gclk");
    v.push("$fatal");
    v.push("$fclose");
    v.push("$fdisplay");
    v.push("$fdisplayb");
    v.push("$fdisplayh");
    v.push("$fdisplayo");
    v.push("$fell");
    v.push("$fell_gclk");
    v.push("$feof");
    v.push("$ferror");
    v.push("$fflush");
    v.push("$fgetc");
    v
}

fn system_function_table_3() -> (r: Vec<&'static str>)
    ensures
        r@ == system_functions_3(),
{
    let mut v: Vec<&'static str> = Vec::new();
    v.push("$fgets");
    v.push("$finish");
    v.push("$floor");
    v.push("$fmonitor");
    v.push("$fmonitorb");
    v.push("$fmonitorh");
    v.push("$fmonitoro");
    v.push("$fopen");
    v.push("$fread");
    v.push("$fscanf");
    v.push("$fseek");
    v.push("$fstrobe");
    v.push("$fstrobeb");
    v.push("$fstrobeh");
    v.push("$fstrobeo");
    v.push("$ftell");
    v.push("$future_gclk");
    v.push("$fwrite");
    v.push("$fwriteb");
    v.push("$fwriteh");
    v.push("$fwriteo");
    v.push("$get_coverage");
    v.push("$high");
    v.push("$hypot");
    v.push("$increment");
    v.push("$info");
    v.push("$isunbounded");
    v.push("$isunknown");
    v
}

fn system_function_table_4() -> (r: Vec<&'static str>)
    ensures
        r@ == system_functions_4(),
{
    let mut v: Vec<&'static str> = Vec::new();
    v.push("$itor");
    v.push("$left");
    v.push("$ln");
    v.push("$load_coverage_db");
    v.push("$log10");
    v.push("$low");
    v.push("$monitor");
    v.push("$monitorb");
    v.push("$monitorh");
    v.push("$monitoro");
    v.push("$monitoroff");
    v.push("$monitoron");
    v.push("$onehot");
    v.push("$onehot0");
    v.push("$past");
    v.push("$past_gclk");
    v.push("$pow");
    v.push("$printtimescale");
    v.push("$q_add");
    v.push("$q_exam");
    v.push("$q_full");
    v.push("$q_initialize");
    v.push("$q_remove");
    v.push("$random");
    v.push("$readmemb");
    v.push("$readmemh");
    v.push("$realtime");
    v.push("$realtobits");
    v
}

fn system_function_table_5() -> (r: Vec<&'static str>)
    ensures
        r@ == system_functions_5(),
{
    let mut v: Vec<&'static str> = Vec::new();
    v.push("$rewind");
    v.push("$right");
    v.push("$rising_gclk");
    v.push("$rose");
    v.push("$rose_gclk");
    v.push("$rtoi");
    v.push("$sampled");
    v.push("$set_coverage_db_name");
    v.push("$sformat");
    v.push("$sformatf");
    v.push("$shortrealtobits");
    v.push("$signed");
    v.push("$sin");
    v.push("$sinh");
    v.push("$size");
    v.push("$sqrt");
    v.push("$sscanf");
    v.push("$stable");
    v.push("$stable_gclk");
    v.push("$steady_gclk");
    v.push("$stime");
    v.push("$stop");
    v.push("$strobe");
    v.push("$strobeb");
    v.push("$strobeh");
    v.push("$strobeo");
    v.push("$swrite");
    v.push("$swriteb");
    v
}

fn system_function_table_6() -> (r: Vec<&'static str>)
    ensures
        r@ == system_functions_6(),
{
    let mut v: Vec<&'static str> = Vec::new();
    v.push("$swriteh");
    v.push("$swriteo");
    v.push("$sync$and$array");
    v.push("$sync$and$plane");
    v.push("$sync$nand$array");
    v.push("$sync$nand$plane");
    v.push("$sync$nor$array");
    v.push("$sync$nor$plane");
    v.push("$sync$or$array");
    v.push("$sync$or$plane");
    v.push("$system");
    v.push("$tan");
    v.push("$tanh");
    v.push("$test$plusargs");
    v.push("$time");
    v.push("$timeformat");
    v.push("$typename");
    v.push("$ungetc");
    v.push("$unpacked_dimensions");
    v.push("$unsigned");
    v.push("$value$plusargs");
    v.push("$warning");
    v.push("$write");
    v.push("$writeb");
    v.push("$writeh");
    v.push("$writememb");
    v.push("$writememh");
    v.push("$writeo");
    v
}

fn defined_system_function_table() -> (r: Vec<&'static str>)
    ensures
        r@ == defined_system_functions(),
{
    let mut v = system_function_table_0();
    let mut t = system_function_table_1();
    v.append(&mut t);
    let mut t = system_function_table_2();
    v.append(&mut t);
    let mut t = system_function_table_3();
    v.append(&mut t);
    let mut t = system_function_table_4();
    v.append(&mut t);
    let mut t = system_function_table_5();
    v.append(&mut t);
    let mut t = system_function_table_6();
    v.append(&mut t);
    v
}

/// Whether `name` is a recognized system function.
pub fn is_defined_system_function_name(name: &str) -> (r: bool)
    ensures
        r == is_defined_system_function(name@),
{
    let table = defined_system_function_table();
    let key = name.to_owned();
    let mut i: usize = 0;
    while i < table.len()
        invariant
            0 <= i <= table.len(),
            table@ == defined_system_functions(),
            key@ == name@,
            forall|j: int| 0 <= j < i ==> table@[j]@ != name@,
        decreases table.len() - i,
    {
        if String::from_str(table[i]) == key {
            return true;
        }
        i = i + 1;
    }
    false
}

/// The identifier denotes a system call: a dollar identifier with nothing
/// after it.
pub open spec fn is_system_call(arg: ExpressionIdentifier) -> bool {
    arg.dollar && !arg.has_suffix
}

/// Reports every call of a system function that is not recognized.
#[derive(Debug)]
pub struct CheckSystemFunction {
    pub errors: Vec<AnalyzerError>,
    pub text: String,
    pub point: HandlerPoint,
}

impl CheckSystemFunction {
    /// A check over the source `text`, with no diagnostics yet.
    pub fn new(text: &str) -> (r: CheckSystemFunction)
        ensures
            r.errors@.len() == 0,
            r.text@ == text@,
            r.point == HandlerPoint::Before,
    {
        CheckSystemFunction { errors: Vec::new(), text: text.to_owned(), point: HandlerPoint::Before }
    }

    pub fn set_point(&mut self, p: HandlerPoint)
        ensures
            final(self).point == p,
            final(self).errors == old(self).errors,
            final(self).text == old(self).text,
    {
        self.point = p;
    }

    /// On entering a system call whose name is not recognized, appends one diagnostic naming it; otherwise does
    /// nothing.
    pub fn expression_identifier(&mut self, arg: &ExpressionIdentifier)
        ensures
            final(self).point == old(self).point,
            final(self).text == old(self).text,
            !(old(self).point is Before && is_system_call(*arg) && !is_defined_system_function(
                arg.identifier.text@,
            )) ==> final(self).errors@ == old(self).errors@,
            old(self).point is Before && is_system_call(*arg) && !is_defined_system_function(
                arg.identifier.text@,
            ) ==> {
                &&& final(self).errors@.len() == old(self).errors@.len() + 1
                &&& final(self).errors@.drop_last() == old(self).errors@
                &&& final(self).errors@.last() is InvalidSystemFunction
                &&& final(self).errors@.last()->InvalidSystemFunction_name@ == arg.identifier.text@
                &&& final(self).errors@.last()->InvalidSystemFunction_input@ == old(self).text@
                &&& final(self).errors@.last()->InvalidSystemFunction_token == arg.identifier
            },
    {
        if self.point == HandlerPoint::Before && arg.dollar && !arg.has_suffix {
            let name = arg.identifier.text.as_str();
            if !is_defined_system_function_name(name) {
                let e = AnalyzerError::invalid_system_function(
                    name,
                    self.text.as_str(),
                    &arg.identifier,
                );
                self.errors.push(e);
                proof {
                    assert(self.errors@.drop_last() =~= old(self).errors@);
                }
            }
        }
    }
}

} // verus!
