# cloudfront_promoter

Promotes an environment (two buckets and a load balancer) behind a CloudFront distribution.

- `src/` is the library: which requests are answered how, what is read and sent for a
  promotion, and the configuration that is sent, verified with Verus.
- `app/` is the Lambda function around it: it performs the calls that the library asks for.
- `tests/` runs the library.
