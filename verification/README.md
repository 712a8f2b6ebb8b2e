# zxc-money

The core of a personal finance application: credit cards and their
invoices, scheduled bills and their calendar, budgets and savings goals,
statement import, and user identity. All amounts are `i64` cents.

`src/` is the library, verified with Verus: every operation states in its
contract what it returns or changes, and the rules that span operations
(an invoice's lifecycle, installments adding up to the purchase, a goal
reaching its target, the calendar reading back what was scheduled) stand
as proof functions beside them.

Amounts are whole cents in an `i64`, never a decimal type: where a
quotient is rounded to the cent (the installments of a purchase), the
rounding is to the nearest cent with ties to the even cent (banker's
rounding), stated as a spec function and proved in integer arithmetic;
closeness of amounts (within 1%) is likewise compared in cents.

`app/` runs the use cases against their ports: repositories, event
publishers and async plumbing, and the figures reported as percentages.

`tests/` exercises the library on concrete values.
