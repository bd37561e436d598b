use vstd::prelude::*;

verus! {

/// One instruction of the bytecode instruction set, decoded together with
/// its immediate operands. Branch offsets are signed; local-variable and
/// constant-pool operands are unsigned indices.
#[derive(Debug, PartialEq, Eq, Clone)]
pub enum Op {
    AALoad,
    AAStore,
    AConstNull,
    AReturn,
    ArrayLength,
    AThrow,
    BALoad,
    BAStore,
    CALoad,
    CAStore,
    D2F,
    D2I,
    D2L,
    DAdd,
    DALoad,
    DAStore,
    DCmpG,
    DCmpL,
    DConst0,
    DConst1,
    DDiv,
    DLoad0,
    DLoad1,
    DLoad2,
    DLoad3,
    DMul,
    DNeg,
    DRem,
    DReturn,
    DSub,
    Dup,
    DupX1,
    DupX2,
    Dup2,
    Dup2X1,
    Dup2X2,
    F2D,
    F2I,
    F2L,
    FAdd,
    FALoad,
    FAStore,
    FCmpG,
    FCmpL,
    FConst0,
    FConst1,
    FConst2,
    FDiv,
    FMul,
    FNeg,
    FRem,
    FReturn,
    FSub,
    I2B,
    I2C,
    I2D,
    I2F,
    I2L,
    I2S,
    IAdd,
    IALoad,
    IAnd,
    IAStore,
    IConstM1,
    IConst0,
    IConst1,
    IConst2,
    IConst3,
    IConst4,
    IConst5,
    IDiv,
    IMul,
    INeg,
    IOr,
    IRem,
    IReturn,
    IShl,
    IShr,
    ISub,
    IUShr,
    IXor,
    L2D,
    L2F,
    L2I,
    LAdd,
    LALoad,
    LAnd,
    LAStore,
    LCmp,
    LConst0,
    LConst1,
    LDiv,
    LMul,
    LNeg,
    LOr,
    LRem,
    LReturn,
    LShl,
    LShr,
    LSub,
    LUShr,
    LXor,
    MonitorEnter,
    MonitorExit,
    Nop,
    Pop,
    Pop2,
    Return,
    SALoad,
    SAStore,
    Swap,
    Wide,
    Breakpoint,
    ALoad(u8),
    ANewArray(u16),
    AStore(u8),
    BIPush(i8),
    CheckCast(u16),
    DLoad(u8),
    DStore(u8),
    FLoad(u8),
    FStore(u8),
    GetField(u16),
    GetStatic(u16),
    Goto(i16),
    GotoW(i32),
    IfACmpEq(i16),
    IfACmpNe(i16),
    IfICmpEq(i16),
    IfICmpNe(i16),
    IfICmpLt(i16),
    IfICmpGe(i16),
    IfICmpGt(i16),
    IfICmpLe(i16),
    IfEq(i16),
    IfNe(i16),
    IfLt(i16),
    IfGe(i16),
    IfGt(i16),
    IfLe(i16),
    IfNonNull(i16),
    IfNull(i16),
    IInc(u8, i8),
    ILoad(u8),
    InstanceOf(u16),
    InvokeDynamic(u16),
    InvokeInterface(u16, u8),
    InvokeSpecial(u16),
    InvokeStatic(u16),
    InvokeVirtual(u16),
    IStore(u8),
    Jsr(i16),
    JsrW(i32),
    LDC(u8),
    LDCW(u16),
    LDC2W(u16),
    LLoad(u8),
    LStore(u8),
    MultiANewArray(u16, u8),
    New(u16),
    NewArray(u8),
    PutField(u16),
    PutStatic(u16),
    Ret(u8),
    SIPush(i16),
    LookupSwitch { default: i32, pairs: Vec<(i32, i32)> },
    TableSwitch { default: i32, low: i32, high: i32, offsets: Vec<i32> },
}

} // verus!