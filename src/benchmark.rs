//! Benchmark parameters, samples and their CSV form.
use vstd::prelude::*;
use vstd::std_specs::convert::IntoSpec;
use vstd::string::StringSliceAdditionalSpecFns;

verus! {

/// Output of a benchmarked function that adds its own CSV columns: each
/// field followed by a comma, in the order of the header's.
pub trait WriteAsCSV {
    /// Appends this value's columns to `out`, leaving what it held.
    fn write_as_csv(&self, out: &mut Vec<u8>)
        ensures
            final(out)@.len() >= old(out)@.len(),
            final(out)@.subrange(0, old(out)@.len() as int) == old(out)@,
    ;

    /// Appends the names of the columns to `out`, leaving what it held.
    fn write_hdr_as_csv(out: &mut Vec<u8>)
        ensures
            final(out)@.len() >= old(out)@.len(),
            final(out)@.subrange(0, old(out)@.len() as int) == old(out)@,
    ;
}

impl WriteAsCSV for () {
    fn write_as_csv(&self, out: &mut Vec<u8>) {
        assert(out@.subrange(0, out@.len() as int) =~= out@);
    }

    fn write_hdr_as_csv(out: &mut Vec<u8>) {
        assert(out@.subrange(0, out@.len() as int) =~= out@);
    }
}

/// The ASCII decimal digits of `n`, most significant first.
pub open spec fn decimal(n: nat) -> Seq<u8>
    decreases n,
{
    if n < 10 {
        seq![(48 + n) as u8]
    } else {
        decimal(n / 10) + seq![(48 + n % 10) as u8]
    }
}

/// Appends the decimal digits of `n` to `out`.
pub fn push_decimal(out: &mut Vec<u8>, n: u128)
    ensures
        final(out)@ == old(out)@ + decimal(n as nat),
    decreases n,
{
    if n >= 10 {
        push_decimal(out, n / 10);
    }
    let digit = (n % 10) as u8;
    out.push(48 + digit);
    assert(out@ =~= old(out)@ + decimal(n as nat));
}

/// Appends `bytes` to `out`.
pub fn push_bytes(out: &mut Vec<u8>, bytes: &[u8])
    ensures
        final(out)@ == old(out)@ + bytes@,
{
    let mut i: usize = 0;
    while i < bytes.len()
        invariant
            i <= bytes@.len(),
            out@ == old(out)@ + bytes@.subrange(0, i as int),
        decreases bytes@.len() - i,
    {
        out.push(bytes[i]);
        i = i + 1;
        assert(out@ =~= old(out)@ + bytes@.subrange(0, i as int));
    }
    assert(bytes@.subrange(0, i as int) =~= bytes@);
}

/// One parameter of a benchmark: its name, the name it is displayed with,
/// the amount of bytes it stands for, and the value handed to the
/// benchmarked functions.
pub struct Param<T> {
    name: String,
    display_name: String,
    amount: usize,
    value: T,
}

impl<T> Param<T> {
    /// The parameter's name.
    pub closed spec fn name_spec(&self) -> Seq<char> {
        self.name@
    }

    /// The name the parameter is displayed with.
    pub closed spec fn display_name_spec(&self) -> Seq<char> {
        self.display_name@
    }

    /// The amount of bytes the parameter stands for.
    pub closed spec fn amount_spec(&self) -> usize {
        self.amount
    }

    /// The value handed to the benchmarked functions.
    pub closed spec fn value_spec(&self) -> T {
        self.value
    }

    /// A parameter whose names are `name` and `display_name` turned into
    /// strings.
    pub fn new<S: Into<String>>(name: S, display_name: S, amount: usize, value: T) -> (p: Param<T>)
        ensures
            S::obeys_into_spec() ==> p.name_spec() == S::into_spec(name)@,
            S::obeys_into_spec() ==> p.display_name_spec() == S::into_spec(display_name)@,
            p.amount_spec() == amount,
            p.value_spec() == value,
    {
        Param { name: name.into(), display_name: display_name.into(), amount, value }
    }

    pub fn name(&self) -> (r: &str)
        ensures
            r@ == self.name_spec(),
    {
        self.name.as_str()
    }

    pub fn display_name(&self) -> (r: &str)
        ensures
            r@ == self.display_name_spec(),
    {
        self.display_name.as_str()
    }

    pub fn amount(&self) -> (r: usize)
        ensures
            r == self.amount_spec(),
    {
        self.amount
    }

    pub fn value(&self) -> (r: &T)
        ensures
            *r == self.value_spec(),
    {
        &self.value
    }
}

/// One timed run of one function on one parameter.
#[derive(Debug)]
pub struct Sample<'a, O: WriteAsCSV> {
    pub name: &'a str,
    pub param: &'a str,
    pub time_ns: u128,
    pub extra: O,
}

impl<'a, O: WriteAsCSV> Sample<'a, O> {
    pub fn new(name: &'a str, param: &'a str, time_ns: u128, extra: O) -> (s: Sample<'a, O>)
        ensures
            s.name == name,
            s.param == param,
            s.time_ns == time_ns,
            s.extra == extra,
    {
        Sample { name, param, time_ns, extra }
    }
}

/// The samples a benchmark collected, in the order they were taken.
#[derive(Debug)]
pub struct BenchmarkResult<'a, O: WriteAsCSV> {
    pub benchmark_name: &'a str,
    pub samples: Vec<Sample<'a, O>>,
}

/// The CSV columns every sample has: method, parameter and time in
/// nanoseconds, each followed by a comma.
pub open spec fn sample_columns<'a, O: WriteAsCSV>(s: Sample<'a, O>) -> Seq<u8> {
    s.name.spec_bytes() + seq![44u8] + s.param.spec_bytes() + seq![44u8] + decimal(s.time_ns as nat)
        + seq![44u8]
}

/// Appends the columns every sample has to `out`.
pub fn write_sample_columns<'a, O: WriteAsCSV>(out: &mut Vec<u8>, s: &Sample<'a, O>)
    ensures
        final(out)@ == old(out)@ + sample_columns(*s),
{
    push_bytes(out, s.name.as_bytes());
    out.push(44u8);
    push_bytes(out, s.param.as_bytes());
    out.push(44u8);
    push_decimal(out, s.time_ns);
    out.push(44u8);
    assert(out@ =~= old(out)@ + sample_columns(*s));
}

/// The CSV lines of `samples`, in order, where `extras[i]` is what the
/// output of `samples[i]` wrote as its own columns.
pub open spec fn csv_lines<'a, O: WriteAsCSV>(samples: Seq<Sample<'a, O>>, extras: Seq<Seq<u8>>) -> Seq<u8>
    decreases samples.len(),
{
    if samples.len() == 0 {
        Seq::empty()
    } else {
        csv_lines(samples.drop_last(), extras.drop_last()) + sample_columns(samples.last())
            + extras.last() + seq![10u8]
    }
}

/// The CSV text of `samples` under the header line whose own columns are
/// `hdr`.
pub open spec fn csv_text<'a, O: WriteAsCSV>(
    samples: Seq<Sample<'a, O>>,
    hdr: Seq<u8>,
    extras: Seq<Seq<u8>>,
) -> Seq<u8> {
    "method,file_size,time,".spec_bytes() + hdr + seq![10u8] + csv_lines(samples, extras)
}

impl<'a, O: WriteAsCSV> BenchmarkResult<'a, O> {
    /// An empty result, with room for `num` samples.
    pub fn new(benchmark_name: &'a str, num: usize) -> (r: BenchmarkResult<'a, O>)
        ensures
            r.benchmark_name == benchmark_name,
            r.samples@.len() == 0,
    {
        let samples = Vec::with_capacity(num);
        BenchmarkResult { benchmark_name, samples }
    }

    /// Appends `sample` to the samples.
    pub fn add(&mut self, sample: Sample<'a, O>)
        ensures
            final(self).benchmark_name == old(self).benchmark_name,
            final(self).samples@ == old(self).samples@.push(sample),
    {
        self.samples.push(sample)
    }

    /// Appends the results as CSV to `out`: the header line, then one line
    /// per sample, each ending in a newline; the columns the output type
    /// adds are what its `WriteAsCSV` methods write.
    pub fn write_as_csv(&self, out: &mut Vec<u8>)
        ensures
            exists|hdr: Seq<u8>, extras: Seq<Seq<u8>>|
                extras.len() == self.samples@.len() && final(out)@ == old(out)@ + csv_text(
                    self.samples@,
                    hdr,
                    extras,
                ),
    {
        push_bytes(out, "method,file_size,time,".as_bytes());
        let before_hdr = Ghost(out@);
        O::write_hdr_as_csv(out);
        let hdr = Ghost(out@.subrange(before_hdr@.len() as int, out@.len() as int));
        assert(out@ =~= before_hdr@ + hdr@);
        out.push(10u8);
        let start = Ghost(out@);
        assert(start@ =~= old(out)@ + "method,file_size,time,".spec_bytes() + hdr@ + seq![10u8]);
        let mut extras: Ghost<Seq<Seq<u8>>> = Ghost(Seq::empty());
        let mut i: usize = 0;
        while i < self.samples.len()
            invariant
                i <= self.samples@.len(),
                extras@.len() == i,
                start@ == old(out)@ + "method,file_size,time,".spec_bytes() + hdr@ + seq![10u8],
                out@ == start@ + csv_lines(self.samples@.subrange(0, i as int), extras@),
            decreases self.samples@.len() - i,
        {
            let s = &self.samples[i];
            write_sample_columns(out, s);
            let before = Ghost(out@);
            s.extra.write_as_csv(out);
            let extra = Ghost(out@.subrange(before@.len() as int, out@.len() as int));
            assert(out@ =~= before@ + extra@);
            out.push(10u8);
            proof {
                let prev = extras@;
                extras@ = extras@.push(extra@);
                let next = self.samples@.subrange(0, i as int + 1);
                assert(next.drop_last() =~= self.samples@.subrange(0, i as int));
                assert(extras@.drop_last() =~= prev);
                assert(out@ =~= start@ + csv_lines(next, extras@));
            }
            i = i + 1;
        }
        assert(self.samples@.subrange(0, i as int) =~= self.samples@);
        assert(out@ =~= old(out)@ + csv_text(self.samples@, hdr@, extras@));
    }
}

} // verus!
