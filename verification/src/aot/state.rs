//! The state of a compilation: the text written so far, and the allocation of the three
//! physical registers to virtual ones.

use crate::text::repeated;
use vstd::prelude::*;
use vstd::string::*;

verus! {

/// The number of physical registers that virtual registers are mapped to.
pub const POOL_SIZE: usize = 3;

/// The calling convention that the emitted code follows.
#[derive(Debug, Clone, Copy, PartialEq, Eq, Structural)]
pub enum AotTarget {
    /// The 64-bit Windows convention, which reserves shadow space on the stack around a call.
    Win64,
}

impl AotTarget {
    /// Whether the convention is that of 64-bit Windows.
    pub fn is_win64(&self) -> (r: bool)
        ensures
            r == (*self == AotTarget::Win64),
    {
        match self {
            AotTarget::Win64 => true,
        }
    }
}

/// The state of a compilation: the assembly text written so far, the depth of indentation,
/// and the lowest virtual register that is free.
#[derive(Debug)]
pub struct AotState {
    pub target: AotTarget,
    pub indent: usize,
    pub closest_free_vreg: usize,
    pub print_used: bool,
    pub assembly: String,
}

/// The mathematical content of an [`AotState`].
pub struct AotView {
    pub target: AotTarget,
    pub indent: usize,
    pub closest_free_vreg: usize,
    pub print_used: bool,
    pub assembly: Seq<char>,
}

impl View for AotState {
    type V = AotView;

    open spec fn view(&self) -> AotView {
        AotView {
            target: self.target,
            indent: self.indent,
            closest_free_vreg: self.closest_free_vreg,
            print_used: self.print_used,
            assembly: self.assembly@,
        }
    }
}

/// The name of the physical register of a virtual register of the pool.
pub open spec fn reg_name(vreg: usize) -> Seq<char> {
    if vreg == 0 {
        "rax"@
    } else if vreg == 1 {
        "rcx"@
    } else {
        "rdx"@
    }
}

/// The end of a line and the indentation of the next: two spaces for each level.
pub open spec fn line_break(indent: usize) -> Seq<char> {
    "\n"@ + repeated("  "@, indent as nat)
}

/// The first `n` operands, separated by a comma and a space.
pub open spec fn joined(operands: Seq<Seq<char>>, n: int) -> Seq<char>
    decreases n,
{
    if n <= 0 {
        Seq::empty()
    } else if n == 1 {
        operands[0]
    } else {
        joined(operands, n - 1) + ", "@ + operands[n - 1]
    }
}

/// An instruction with its operands: the mnemonic, a space, the operands.
pub open spec fn instruction_text(mnemonic: Seq<char>, operands: Seq<Seq<char>>) -> Seq<char> {
    mnemonic + " "@ + joined(operands, operands.len() as int)
}

/// The views of a sequence of strings, one for one.
pub open spec fn string_views(strings: Seq<String>) -> Seq<Seq<char>> {
    strings.map_values(|s: String| s@)
}

/// The call of the print routine on a register: the format string and the register are
/// handed over, and under the Windows convention the call stands between the reservation
/// of 40 bytes of stack and their release. Every instruction is followed by a line break.
pub open spec fn print_text(target: AotTarget, indent: usize, vreg: usize) -> Seq<char> {
    let br = line_break(indent);
    let call = instruction_text("lea"@, seq!["rcx"@, "[rel fmt]"@]) + br + instruction_text(
        "mov"@,
        seq!["rdx"@, reg_name(vreg)],
    ) + br + instruction_text("call"@, seq!["printf"@]) + br;
    if target == AotTarget::Win64 {
        instruction_text("sub"@, seq!["rsp"@, "40"@]) + br + call + instruction_text(
            "add"@,
            seq!["rsp"@, "40"@],
        ) + br
    } else {
        call
    }
}

/// The head of every program, written at a level of indentation: the entry symbol, the
/// print routine, the format string, and the label of the entry, behind which the text is
/// indented by one level more.
pub open spec fn header_text(indent: usize) -> Seq<char> {
    let br = line_break(indent);
    "global main"@ + br + "extern "@ + "printf"@ + br + br + "section ."@ + "data"@ + br
        + "fmt db \"%d\", 10, 0"@ + br + br + "section ."@ + "text"@ + br + "main"@ + ":"@
        + line_break((indent + 1) as usize)
}

impl AotView {
    /// The state after a text is written.
    pub open spec fn wrote(self, text: Seq<char>) -> AotView {
        AotView { assembly: self.assembly + text, ..self }
    }

    /// The state after a virtual register is taken: the next free one is the one above it.
    pub open spec fn allocated(self, vreg: usize) -> AotView {
        AotView { closest_free_vreg: (vreg + 1) as usize, ..self }
    }

    /// The state after a virtual register is given back: the mark of the free registers
    /// comes down to it where it lies at or below the mark, and stays otherwise.
    pub open spec fn freed(self, vreg: usize) -> AotView {
        if vreg <= self.closest_free_vreg {
            AotView { closest_free_vreg: vreg, ..self }
        } else {
            self
        }
    }
}

/// The name of the physical register of a virtual register.
pub fn vreg_to_reg(vreg: usize) -> (r: String)
    requires
        vreg < POOL_SIZE,
    ensures
        r@ == reg_name(vreg),
{
    if vreg == 0 {
        String::from_str("rax")
    } else if vreg == 1 {
        String::from_str("rcx")
    } else {
        String::from_str("rdx")
    }
}

/// The end of a line and the indentation of the next.
fn line_break_text(indent: usize) -> (r: String)
    ensures
        r@ == line_break(indent),
{
    let mut text = String::from_str("\n");
    let mut i: usize = 0;
    while i < indent
        invariant
            i <= indent,
            text@ == "\n"@ + repeated("  "@, i as nat),
        decreases indent - i,
    {
        text.append("  ");
        i += 1;
        assert(text@ =~= "\n"@ + repeated("  "@, i as nat));
    }
    text
}

/// An instruction with its operands.
fn build_instruction(mnemonic: &str, operands: &Vec<String>) -> (r: String)
    ensures
        r@ == instruction_text(mnemonic@, string_views(operands@)),
{
    let mut text = String::from_str(mnemonic);
    text.append(" ");
    let length = operands.len();
    let mut i: usize = 0;
    assert(text@ =~= mnemonic@ + " "@ + joined(string_views(operands@), 0));
    while i < length
        invariant
            i <= length,
            length == operands@.len(),
            text@ == mnemonic@ + " "@ + joined(string_views(operands@), i as int),
        decreases length - i,
    {
        if i != 0 {
            text.append(", ");
        }
        text.append(operands[i].as_str());
        i += 1;
        assert(text@ =~= mnemonic@ + " "@ + joined(string_views(operands@), i as int));
    }
    text
}

/// An instruction with two operands.
fn build_binary(mnemonic: &str, first: String, second: String) -> (r: String)
    ensures
        r@ == instruction_text(mnemonic@, seq![first@, second@]),
{
    let mut operands: Vec<String> = Vec::new();
    operands.push(first);
    operands.push(second);
    assert(string_views(operands@) =~= seq![first@, second@]);
    build_instruction(mnemonic, &operands)
}

/// The call of the print routine on a register.
fn build_print(target: AotTarget, indent: usize, vreg: usize) -> (r: String)
    requires
        vreg < POOL_SIZE,
    ensures
        r@ == print_text(target, indent, vreg),
{
    let br = line_break_text(indent);
    let mut text = String::new();
    if target.is_win64() {
        let sub = build_binary("sub", String::from_str("rsp"), String::from_str("40"));
        text.append(sub.as_str());
        text.append(br.as_str());
    }
    let ghost before = text@;
    let lea = build_binary("lea", String::from_str("rcx"), String::from_str("[rel fmt]"));
    text.append(lea.as_str());
    text.append(br.as_str());
    let mov = build_binary("mov", String::from_str("rdx"), vreg_to_reg(vreg));
    text.append(mov.as_str());
    text.append(br.as_str());
    let mut operands: Vec<String> = Vec::new();
    operands.push(String::from_str("printf"));
    assert(string_views(operands@) =~= seq!["printf"@]);
    let call = build_instruction("call", &operands);
    text.append(call.as_str());
    text.append(br.as_str());
    assert(text@ =~= before + (lea@ + br@ + mov@ + br@ + call@ + br@));
    if target.is_win64() {
        let add = build_binary("add", String::from_str("rsp"), String::from_str("40"));
        text.append(add.as_str());
        text.append(br.as_str());
        assert(text@ =~= print_text(target, indent, vreg));
    } else {
        assert(text@ =~= print_text(target, indent, vreg));
    }
    text
}

impl AotState {
    /// The state at the start of a compilation: nothing written, no indentation, every
    /// register free.
    pub fn new(target: AotTarget) -> (state: AotState)
        ensures
            state@ == (AotView {
                target,
                indent: 0,
                closest_free_vreg: 0,
                print_used: false,
                assembly: Seq::empty(),
            }),
    {
        AotState {
            target,
            indent: 0,
            closest_free_vreg: 0,
            print_used: false,
            assembly: String::new(),
        }
    }

    /// Takes the virtual register `vreg`: the registers from the one above it on are free.
    pub fn alloc_vreg(&mut self, vreg: usize) -> (r: usize)
        requires
            vreg < POOL_SIZE,
        ensures
            r == vreg,
            final(self)@ == old(self)@.allocated(vreg),
    {
        self.closest_free_vreg = vreg + 1;
        vreg
    }

    /// Takes the lowest free virtual register.
    pub fn alloc_new_vreg(&mut self) -> (r: usize)
        requires
            old(self).closest_free_vreg < POOL_SIZE,
        ensures
            r == old(self).closest_free_vreg,
            final(self)@ == old(self)@.allocated(r),
    {
        let allocated = self.closest_free_vreg;
        self.closest_free_vreg += 1;
        allocated
    }

    /// Takes the virtual register `vreg` and names its physical register.
    pub fn alloc_reg(&mut self, vreg: usize) -> (r: String)
        requires
            vreg < POOL_SIZE,
        ensures
            r@ == reg_name(vreg),
            final(self)@ == old(self)@.allocated(vreg),
    {
        vreg_to_reg(self.alloc_vreg(vreg))
    }

    /// Gives a virtual register back. Only the registers taken last can be given back:
    /// freeing a register above the mark changes nothing.
    pub fn free_vreg(&mut self, vreg: usize)
        ensures
            final(self)@ == old(self)@.freed(vreg),
    {
        if vreg <= self.closest_free_vreg {
            self.closest_free_vreg = vreg;
        }
    }

    /// Writes the load of `src` into the register of `vreg`, which is taken; returns what
    /// was written.
    pub fn write_loadv(&mut self, vreg: usize, src: String) -> (written: String)
        requires
            vreg < POOL_SIZE,
        ensures
            written@ == instruction_text("mov"@, seq![reg_name(vreg), src@]),
            final(self)@ == old(self)@.allocated(vreg).wrote(written@),
    {
        let reg = self.alloc_reg(vreg);
        let mut operands: Vec<String> = Vec::new();
        operands.push(reg);
        operands.push(src);
        assert(string_views(operands@) =~= seq![reg_name(vreg), src@]);
        self.write_instruction("mov", operands)
    }

    /// Writes the addition of the register of `vreg1` to that of `vreg0`; returns what was
    /// written.
    pub fn write_add(&mut self, vreg0: usize, vreg1: usize) -> (written: String)
        requires
            vreg0 < POOL_SIZE,
            vreg1 < POOL_SIZE,
        ensures
            written@ == instruction_text("add"@, seq![reg_name(vreg0), reg_name(vreg1)]),
            final(self)@ == old(self)@.wrote(written@),
    {
        let reg0 = vreg_to_reg(vreg0);
        let reg1 = vreg_to_reg(vreg1);
        let mut operands: Vec<String> = Vec::new();
        operands.push(reg0);
        operands.push(reg1);
        assert(string_views(operands@) =~= seq![reg_name(vreg0), reg_name(vreg1)]);
        self.write_instruction("add", operands)
    }

    /// Gives `vreg` back and writes the call that prints its register; returns what was
    /// written.
    pub fn write_print(&mut self, vreg: usize) -> (written: String)
        requires
            vreg < POOL_SIZE,
        ensures
            written@ == print_text(old(self).target, old(self).indent, vreg),
            final(self)@ == old(self)@.freed(vreg).wrote(written@),
    {
        self.free_vreg(vreg);
        let text = build_print(self.target, self.indent, vreg);
        self.write_borrowed(text.as_str());
        text
    }

    /// Writes the head of a program and indents what follows by one level.
    pub fn write_header(&mut self)
        requires
            old(self).indent < usize::MAX,
        ensures
            final(self)@ == (AotView {
                indent: (old(self).indent + 1) as usize,
                ..old(self)@.wrote(header_text(old(self).indent))
            }),
    {
        self.write_borrowed("global main");
        self.write_line();
        self.write_extern("printf");
        self.write_line();
        self.section("data");
        self.write_borrowed("fmt db \"%d\", 10, 0");
        self.write_line();
        self.write_line();
        self.section("text");
        self.write_label("main");
        assert(self@.assembly =~= old(self)@.assembly + header_text(old(self).indent));
    }

    /// Writes the start of a section.
    fn section(&mut self, name: &str)
        ensures
            final(self)@ == old(self)@.wrote("section ."@ + name@ + line_break(old(self).indent)),
    {
        self.write_borrowed("section .");
        self.write_borrowed(name);
        self.write_line();
        assert(self@.assembly =~= old(self)@.assembly + ("section ."@ + name@ + line_break(
            old(self).indent,
        )));
    }

    /// Writes the declaration of an outside symbol.
    fn write_extern(&mut self, name: &str)
        ensures
            final(self)@ == old(self)@.wrote("extern "@ + name@ + line_break(old(self).indent)),
    {
        self.write_borrowed("extern ");
        self.write_borrowed(name);
        self.write_line();
        assert(self@.assembly =~= old(self)@.assembly + ("extern "@ + name@ + line_break(
            old(self).indent,
        )));
    }

    /// Writes a label and indents what follows by one level more.
    fn write_label(&mut self, name: &str)
        requires
            old(self).indent < usize::MAX,
        ensures
            final(self)@ == (AotView {
                indent: (old(self).indent + 1) as usize,
                ..old(self)@.wrote(name@ + ":"@ + line_break((old(self).indent + 1) as usize))
            }),
    {
        self.write_borrowed(name);
        self.write_borrowed(":");
        self.push_indent();
        self.write_line();
        assert(self@.assembly =~= old(self)@.assembly + (name@ + ":"@ + line_break(
            (old(self).indent + 1) as usize,
        )));
    }

    /// Writes an instruction that has no operands; returns what was written.
    pub fn write_unit_instruction(&mut self, instruction: &str) -> (written: String)
        ensures
            written@ == instruction@,
            final(self)@ == old(self)@.wrote(instruction@),
    {
        self.write_borrowed(instruction);
        String::from_str(instruction)
    }

    /// Writes an instruction with its operands; returns what was written.
    pub fn write_instruction(&mut self, instruction: &str, operands: Vec<String>) -> (written:
        String)
        ensures
            written@ == instruction_text(instruction@, string_views(operands@)),
            final(self)@ == old(self)@.wrote(written@),
    {
        let text = build_instruction(instruction, &operands);
        self.write_borrowed(text.as_str());
        text
    }

    /// Indents what follows by one level more.
    pub fn push_indent(&mut self)
        requires
            old(self).indent < usize::MAX,
        ensures
            final(self)@ == (AotView { indent: (old(self).indent + 1) as usize, ..old(self)@ }),
    {
        self.indent += 1;
    }

    /// Indents what follows by one level less.
    pub fn pop_indent(&mut self)
        requires
            old(self).indent > 0,
        ensures
            final(self)@ == (AotView { indent: (old(self).indent - 1) as usize, ..old(self)@ }),
    {
        self.indent -= 1;
    }

    /// Ends the line and indents the next.
    pub fn write_line(&mut self)
        ensures
            final(self)@ == old(self)@.wrote(line_break(old(self).indent)),
    {
        let text = line_break_text(self.indent);
        self.write_borrowed(text.as_str());
    }

    /// Writes a text.
    pub fn write(&mut self, s: String)
        ensures
            final(self)@ == old(self)@.wrote(s@),
    {
        self.assembly.append(s.as_str());
    }

    /// Writes a text.
    pub fn write_borrowed(&mut self, s: &str)
        ensures
            final(self)@ == old(self)@.wrote(s@),
    {
        self.assembly.append(s);
    }
}

} // verus!
